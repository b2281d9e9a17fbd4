//! A client for the WebDriver protocol: capability negotiation, command
//! envelopes, reply classification, tab bookkeeping and the decision steps
//! of session creation and tab commands. Sending the requests is left to the
//! caller, who feeds the replies back in.

pub mod error;
pub mod json;
pub mod protocol;
pub mod session;
pub mod tab;
