//! The closed set of failures that WebDriver commands report.

use vstd::prelude::*;

verus! {

/// A failure of a WebDriver command.
#[derive(Debug, Clone, PartialEq, Eq)]
pub enum WebdriverError {
    /// The local platform is none of the known ones.
    UnsupportedPlatform,
    /// The request did not reach a server or got no answer.
    FailedRequest,
    /// The reply was not JSON or had an unexpected shape.
    InvalidResponse,
    ElementClickIntercepted,
    ElementNotInteractable,
    InsecureCertificate,
    InvalidArgument,
    InvalidCookieDomain,
    InvalidElementState,
    InvalidSelector,
    InvalidSessionId,
    JavascriptError,
    MoveTargetOutOfBounds,
    NoSuchAlert,
    NoSuchCookie,
    NoSuchElement,
    NoSuchFrame,
    NoSuchWindow,
    ScriptTimeout,
    SessionNotCreated,
    StaleElementReference,
    Timeout,
    UnableToSetCookie,
    UnableToCaptureScreen,
    UnexpectedAlertOpen,
    UnknownCommand,
    UnknownError,
    UnknownMethod,
    UnsupportedOperation,
    /// Any other condition, with its message (an unknown wire code is kept here).
    Custom(String),
}

/// The variant that a known wire error code stands for.
pub open spec fn known_error(code: Seq<char>) -> Option<WebdriverError> {
    if code == "element click intercepted"@ {
        Some(WebdriverError::ElementClickIntercepted)
    } else if code == "element not interactable"@ {
        Some(WebdriverError::ElementNotInteractable)
    } else if code == "insecure certificate"@ {
        Some(WebdriverError::InsecureCertificate)
    } else if code == "invalid argument"@ {
        Some(WebdriverError::InvalidArgument)
    } else if code == "invalid cookie domain"@ {
        Some(WebdriverError::InvalidCookieDomain)
    } else if code == "invalid element state"@ {
        Some(WebdriverError::InvalidElementState)
    } else if code == "invalid selector"@ {
        Some(WebdriverError::InvalidSelector)
    } else if code == "invalid session id"@ {
        Some(WebdriverError::InvalidSessionId)
    } else if code == "javascript error"@ {
        Some(WebdriverError::JavascriptError)
    } else if code == "move target out of bounds"@ {
        Some(WebdriverError::MoveTargetOutOfBounds)
    } else if code == "no such alert"@ {
        Some(WebdriverError::NoSuchAlert)
    } else if code == "no such cookie"@ {
        Some(WebdriverError::NoSuchCookie)
    } else if code == "no such element"@ {
        Some(WebdriverError::NoSuchElement)
    } else if code == "no such frame"@ {
        Some(WebdriverError::NoSuchFrame)
    } else if code == "no such window"@ {
        Some(WebdriverError::NoSuchWindow)
    } else if code == "script timeout"@ {
        Some(WebdriverError::ScriptTimeout)
    } else if code == "session not created"@ {
        Some(WebdriverError::SessionNotCreated)
    } else if code == "stale element reference"@ {
        Some(WebdriverError::StaleElementReference)
    } else if code == "timeout"@ {
        Some(WebdriverError::Timeout)
    } else if code == "unable to set cookie"@ {
        Some(WebdriverError::UnableToSetCookie)
    } else if code == "unable to capture screen"@ {
        Some(WebdriverError::UnableToCaptureScreen)
    } else if code == "unexpected alert open"@ {
        Some(WebdriverError::UnexpectedAlertOpen)
    } else if code == "unknown command"@ {
        Some(WebdriverError::UnknownCommand)
    } else if code == "unknown error"@ {
        Some(WebdriverError::UnknownError)
    } else if code == "unknown method"@ {
        Some(WebdriverError::UnknownMethod)
    } else if code == "unsupported operation"@ {
        Some(WebdriverError::UnsupportedOperation)
    } else {
        None
    }
}

/// `e` is the failure that the wire code `code` reports: its named variant,
/// or `Custom` holding the code itself when the code is not a known one.
pub open spec fn denotes(e: WebdriverError, code: Seq<char>) -> bool {
    match known_error(code) {
        Some(k) => e == k,
        None => e is Custom && e->Custom_0@ == code,
    }
}

fn same_text(a: &str, b: &str) -> (r: bool)
    ensures
        r == (a@ == b@),
{
    let x = a.to_owned();
    let y = b.to_owned();
    x == y
}

impl WebdriverError {
    /// The failure named by a wire error code (the `value.error` field of a reply).
    pub fn from_wire(code: &str) -> (r: WebdriverError)
        ensures
            denotes(r, code@),
    {
        if same_text(code, "element click intercepted") {
            WebdriverError::ElementClickIntercepted
        } else if same_text(code, "element not interactable") {
            WebdriverError::ElementNotInteractable
        } else if same_text(code, "insecure certificate") {
            WebdriverError::InsecureCertificate
        } else if same_text(code, "invalid argument") {
            WebdriverError::InvalidArgument
        } else if same_text(code, "invalid cookie domain") {
            WebdriverError::InvalidCookieDomain
        } else if same_text(code, "invalid element state") {
            WebdriverError::InvalidElementState
        } else if same_text(code, "invalid selector") {
            WebdriverError::InvalidSelector
        } else if same_text(code, "invalid session id") {
            WebdriverError::InvalidSessionId
        } else if same_text(code, "javascript error") {
            WebdriverError::JavascriptError
        } else if same_text(code, "move target out of bounds") {
            WebdriverError::MoveTargetOutOfBounds
        } else if same_text(code, "no such alert") {
            WebdriverError::NoSuchAlert
        } else if same_text(code, "no such cookie") {
            WebdriverError::NoSuchCookie
        } else if same_text(code, "no such element") {
            WebdriverError::NoSuchElement
        } else if same_text(code, "no such frame") {
            WebdriverError::NoSuchFrame
        } else if same_text(code, "no such window") {
            WebdriverError::NoSuchWindow
        } else if same_text(code, "script timeout") {
            WebdriverError::ScriptTimeout
        } else if same_text(code, "session not created") {
            WebdriverError::SessionNotCreated
        } else if same_text(code, "stale element reference") {
            WebdriverError::StaleElementReference
        } else if same_text(code, "timeout") {
            WebdriverError::Timeout
        } else if same_text(code, "unable to set cookie") {
            WebdriverError::UnableToSetCookie
        } else if same_text(code, "unable to capture screen") {
            WebdriverError::UnableToCaptureScreen
        } else if same_text(code, "unexpected alert open") {
            WebdriverError::UnexpectedAlertOpen
        } else if same_text(code, "unknown command") {
            WebdriverError::UnknownCommand
        } else if same_text(code, "unknown error") {
            WebdriverError::UnknownError
        } else if same_text(code, "unknown method") {
            WebdriverError::UnknownMethod
        } else if same_text(code, "unsupported operation") {
            WebdriverError::UnsupportedOperation
        } else {
            WebdriverError::Custom(code.to_owned())
        }
    }
}

} // verus!
