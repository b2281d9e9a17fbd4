//! Tabs, and the exchange that runs one command on a tab: make sure the tab
//! is the selected window, then send the command and read its reply.

use vstd::prelude::*;
use vstd::std_specs::cmp::PartialEqSpec;
use crate::error::WebdriverError;
use crate::json::{Json, is_text, member};
use crate::protocol::{
    Event, Method, Request, Selector, close_read, element_read, empty_body, failure,
    find_body, handle_body, read_close, read_element, read_text, read_unit, reply, reply_of,
    script_body, selector_name, session_path, session_path_with, shaped, text_list, text_read,
    unit_read, url_body, value_of,
};

verus! {

/// One browser window of a session.
#[derive(Debug)]
pub struct Tab {
    pub id: String,
    /// The session that the window belongs to.
    pub session_id: String,
}

impl PartialEq for Tab {
    /// Tabs are the same window when their handles are the same.
    fn eq(&self, other: &Tab) -> (r: bool) {
        self.id == other.id
    }
}

impl vstd::std_specs::cmp::PartialEqSpecImpl for Tab {
    open spec fn obeys_eq_spec() -> bool {
        true
    }

    open spec fn eq_spec(&self, other: &Tab) -> bool {
        self.id@ == other.id@
    }
}

/// A command that acts on one tab.
#[derive(Debug, PartialEq)]
pub enum Command {
    Select,
    Navigate(String),
    GetUrl,
    GetTitle,
    Back,
    Forward,
    Refresh,
    Close,
    Find(Selector, String),
    ExecuteScript(String, Vec<String>),
}

/// What a command yields when it succeeds.
#[derive(Debug, PartialEq)]
pub enum Payload {
    /// The command was carried out and yields nothing.
    Done,
    /// The text asked for (a URL or a title).
    Text(String),
    /// The reference of the element found, or none.
    Element(Option<String>),
}

/// Where an exchange stands: which reply it waits for.
#[derive(Debug, Clone, Copy, PartialEq, Eq)]
pub enum Stage {
    /// The reply that names the selected window.
    Probe,
    /// The reply to switching to this tab.
    Switch,
    /// The reply to the command itself.
    Act,
    /// None: the outcome is known.
    Finished,
}

/// What to do next in an exchange.
#[derive(Debug, PartialEq)]
pub enum Step {
    /// Send this request and hand its reply back.
    Send(Request),
    /// The command is over, with this outcome.
    Finish(Result<Payload, WebdriverError>),
}

/// One command on one tab, from the first request to its outcome.
#[derive(Debug)]
pub struct Exchange {
    pub tab: Tab,
    pub command: Command,
    pub stage: Stage,
}

/// `req` is `method` on the path `suffix` of the tab's session, with `body`.
pub open spec fn addressed(tab: Tab, req: Request, method: Method, suffix: Seq<char>) -> bool {
    req.method == method && req.path@ == session_path(tab.session_id@) + suffix
}

/// The request that asks which window is selected.
pub open spec fn probe_request(tab: Tab, req: Request) -> bool {
    addressed(tab, req, Method::Get, "/window"@) && req.body is None
}

/// The request that selects the tab's window.
pub open spec fn switch_request(tab: Tab, req: Request) -> bool {
    &&& addressed(tab, req, Method::Post, "/window"@)
    &&& req.body is Some
    &&& shaped(req.body->Some_0, seq!["handle"@])
    &&& is_text(member(req.body->Some_0, "handle"@), tab.id@)
}

/// The request that carries out `cmd` once the tab is selected.
pub open spec fn act_request(tab: Tab, cmd: Command, req: Request) -> bool {
    match cmd {
        Command::Select => false,
        Command::Navigate(url) => {
            &&& addressed(tab, req, Method::Post, "/url"@)
            &&& req.body is Some
            &&& shaped(req.body->Some_0, seq!["url"@])
            &&& is_text(member(req.body->Some_0, "url"@), url@)
        },
        Command::GetUrl => addressed(tab, req, Method::Get, "/url"@) && req.body is None,
        Command::GetTitle => addressed(tab, req, Method::Get, "/title"@) && req.body is None,
        Command::Back => addressed(tab, req, Method::Post, "/back"@) && req.body is Some && shaped(
            req.body->Some_0,
            Seq::empty(),
        ),
        Command::Forward => addressed(tab, req, Method::Post, "/forward"@) && req.body is Some
            && shaped(req.body->Some_0, Seq::empty()),
        Command::Refresh => addressed(tab, req, Method::Post, "/refresh"@) && req.body is Some
            && shaped(req.body->Some_0, Seq::empty()),
        Command::Close => addressed(tab, req, Method::Delete, "/window"@) && req.body is None,
        Command::Find(selector, target) => {
            &&& addressed(tab, req, Method::Post, "/element"@)
            &&& req.body is Some
            &&& shaped(req.body->Some_0, seq!["using"@, "value"@])
            &&& is_text(member(req.body->Some_0, "using"@), selector_name(selector))
            &&& is_text(member(req.body->Some_0, "value"@), target@)
        },
        Command::ExecuteScript(script, args) => {
            &&& addressed(tab, req, Method::Post, "/execute/sync"@)
            &&& req.body is Some
            &&& shaped(req.body->Some_0, seq!["script"@, "args"@])
            &&& is_text(member(req.body->Some_0, "script"@), script@)
            &&& text_list(member(req.body->Some_0, "args"@), args@)
        },
    }
}

/// The outcome of `cmd` given the reply to its request.
pub open spec fn settles(
    cmd: Command,
    reply: Result<Json, WebdriverError>,
    out: Result<Payload, WebdriverError>,
) -> bool {
    match cmd {
        Command::GetUrl | Command::GetTitle => match out {
            Ok(Payload::Text(s)) => text_read(reply, Ok(s)),
            Ok(_) => false,
            Err(e) => text_read(reply, Err(e)),
        },
        Command::Close => match out {
            Ok(p) => p is Done && close_read(reply, Ok(())),
            Err(e) => close_read(reply, Err(e)),
        },
        Command::Find(_, _) => match out {
            Ok(Payload::Element(found)) => element_read(reply, Ok(found)),
            Ok(_) => false,
            Err(e) => element_read(reply, Err(e)),
        },
        _ => match out {
            Ok(p) => p is Done && unit_read(reply, Ok(())),
            Err(e) => unit_read(reply, Err(e)),
        },
    }
}

/// The reply to the probe names this tab's window as the selected one.
pub open spec fn probe_hit(tab: Tab, ev: Event) -> bool {
    reply_of(ev) is Ok && is_text(value_of(reply_of(ev)->Ok_0), tab.id@)
}

/// With the tab selected: a selection is over; any other command is sent.
pub open spec fn proceeds(pre: Exchange, post: Exchange, step: Step) -> bool {
    if pre.command is Select {
        post.stage is Finished && step == Step::Finish(Ok(Payload::Done))
    } else {
        post.stage is Act && step is Send && act_request(pre.tab, pre.command, step->Send_0)
    }
}

/// One move of an exchange: from `pre`, on the reply `ev`, to `post`, doing `step`.
pub open spec fn transition(pre: Exchange, ev: Event, post: Exchange, step: Step) -> bool {
    &&& post.tab == pre.tab
    &&& post.command == pre.command
    &&& match pre.stage {
        Stage::Probe => if probe_hit(pre.tab, ev) {
            proceeds(pre, post, step)
        } else {
            post.stage is Switch && step is Send && switch_request(pre.tab, step->Send_0)
        },
        Stage::Switch => if unit_read(reply_of(ev), Ok(())) {
            proceeds(pre, post, step)
        } else {
            &&& post.stage is Finished
            &&& step is Finish
            &&& step->Finish_0 is Err
            &&& failure(reply_of(ev), step->Finish_0->Err_0)
        },
        Stage::Act => post.stage is Finished && step is Finish && settles(
            pre.command,
            reply_of(ev),
            step->Finish_0,
        ),
        Stage::Finished => false,
    }
}

/// Selecting a tab that is already the selected window takes a single request:
/// once the probe names the tab, the selection is over and nothing more is sent.
pub proof fn lemma_selected_tab_needs_no_switch(pre: Exchange, ev: Event, post: Exchange, step: Step)
    requires
        pre.stage is Probe,
        pre.command is Select,
        probe_hit(pre.tab, ev),
        transition(pre, ev, post, step),
    ensures
        step == Step::Finish(Ok(Payload::Done)),
        post.stage is Finished,
{
}

/// Tabs compare equal exactly when their handles are equal, whatever their sessions.
pub proof fn lemma_tab_equality(a: Tab, b: Tab)
    ensures
        a.eq_spec(&b) <==> a.id@ == b.id@,
{
}

fn path(tab: &Tab, suffix: &str) -> (r: String)
    ensures
        r@ == session_path(tab.session_id@) + suffix@,
{
    session_path_with(tab.session_id.as_str(), suffix)
}

fn post(tab: &Tab, suffix: &str, body: Json) -> (r: Request)
    ensures
        addressed(*tab, r, Method::Post, suffix@),
        r.body == Some(body),
{
    Request { method: Method::Post, path: path(tab, suffix), body: Some(body) }
}

fn get(tab: &Tab, suffix: &str) -> (r: Request)
    ensures
        addressed(*tab, r, Method::Get, suffix@),
        r.body is None,
{
    Request { method: Method::Get, path: path(tab, suffix), body: None }
}

impl Tab {
    pub fn new_from(id: String, session_id: String) -> (r: Tab)
        ensures
            r.id == id,
            r.session_id == session_id,
    {
        Tab { id, session_id }
    }

    pub fn get_session_id(&self) -> (r: String)
        ensures
            r == self.session_id,
    {
        self.session_id.clone()
    }

    pub fn get_id(&self) -> (r: &String)
        ensures
            *r == self.id,
    {
        &self.id
    }

    pub(crate) fn copy(&self) -> (r: Tab)
        ensures
            r == *self,
    {
        Tab { id: self.id.clone(), session_id: self.session_id.clone() }
    }

    fn exchange(&self, command: Command) -> (r: Exchange)
        ensures
            r.tab == *self,
            r.command == command,
            r.stage is Probe,
    {
        Exchange { tab: self.copy(), command, stage: Stage::Probe }
    }

    /// Makes this tab the selected window.
    pub fn select(&self) -> (r: Exchange)
        ensures
            r.tab == *self,
            r.command is Select,
            r.stage is Probe,
    {
        self.exchange(Command::Select)
    }

    /// Loads `url` in this tab.
    pub fn navigate(&self, url: &str) -> (r: Exchange)
        ensures
            r.tab == *self,
            r.command is Navigate && r.command->Navigate_0@ == url@,
            r.stage is Probe,
    {
        self.exchange(Command::Navigate(url.to_owned()))
    }

    /// Closes this tab's window.
    pub fn close(&self) -> (r: Exchange)
        ensures
            r.tab == *self,
            r.command is Close,
            r.stage is Probe,
    {
        self.exchange(Command::Close)
    }

    /// Looks for an element, by `selector`, in this tab.
    pub fn find(&self, selector: Selector, target: &str) -> (r: Exchange)
        ensures
            r.tab == *self,
            r.command is Find && r.command->Find_0 == selector && r.command->Find_1@ == target@,
            r.stage is Probe,
    {
        self.exchange(Command::Find(selector, target.to_owned()))
    }

    /// The URL of the page in this tab.
    pub fn get_url(&self) -> (r: Exchange)
        ensures
            r.tab == *self,
            r.command is GetUrl,
            r.stage is Probe,
    {
        self.exchange(Command::GetUrl)
    }

    /// The title of the page in this tab.
    pub fn get_title(&self) -> (r: Exchange)
        ensures
            r.tab == *self,
            r.command is GetTitle,
            r.stage is Probe,
    {
        self.exchange(Command::GetTitle)
    }

    /// Goes back one page.
    pub fn back(&self) -> (r: Exchange)
        ensures
            r.tab == *self,
            r.command is Back,
            r.stage is Probe,
    {
        self.exchange(Command::Back)
    }

    /// Goes forward one page.
    pub fn forward(&self) -> (r: Exchange)
        ensures
            r.tab == *self,
            r.command is Forward,
            r.stage is Probe,
    {
        self.exchange(Command::Forward)
    }

    /// Reloads the page.
    pub fn refresh(&self) -> (r: Exchange)
        ensures
            r.tab == *self,
            r.command is Refresh,
            r.stage is Probe,
    {
        self.exchange(Command::Refresh)
    }

    /// Runs `script` with `args` in this tab.
    pub fn execute_script(&self, script: &str, args: Vec<String>) -> (r: Exchange)
        ensures
            r.tab == *self,
            r.command is ExecuteScript && r.command->ExecuteScript_0@ == script@
                && r.command->ExecuteScript_1 == args,
            r.stage is Probe,
    {
        self.exchange(Command::ExecuteScript(script.to_owned(), args))
    }
}

impl Exchange {
    /// The first request: which window is selected.
    pub fn probe(&self) -> (r: Request)
        ensures
            probe_request(self.tab, r),
    {
        get(&self.tab, "/window")
    }

    fn act(&self) -> (r: Request)
        requires
            !(self.command is Select),
        ensures
            act_request(self.tab, self.command, r),
    {
        let tab = &self.tab;
        match &self.command {
            Command::Select => get(tab, "/window"),
            Command::Navigate(url) => post(tab, "/url", url_body(url.as_str())),
            Command::GetUrl => get(tab, "/url"),
            Command::GetTitle => get(tab, "/title"),
            Command::Back => post(tab, "/back", empty_body()),
            Command::Forward => post(tab, "/forward", empty_body()),
            Command::Refresh => post(tab, "/refresh", empty_body()),
            Command::Close => Request {
                method: Method::Delete,
                path: path(tab, "/window"),
                body: None,
            },
            Command::Find(selector, target) => post(tab, "/element", find_body(*selector, target.as_str())),
            Command::ExecuteScript(script, args) => post(
                tab,
                "/execute/sync",
                script_body(script.as_str(), args),
            ),
        }
    }

    /// With the tab selected, the next step.
    fn proceed(&mut self) -> (step: Step)
        requires
            !(old(self).stage is Finished),
        ensures
            final(self).tab == old(self).tab,
            final(self).command == old(self).command,
            proceeds(*old(self), *final(self), step),
    {
        match self.command {
            Command::Select => {
                self.stage = Stage::Finished;
                Step::Finish(Ok(Payload::Done))
            },
            _ => {
                let req = self.act();
                self.stage = Stage::Act;
                Step::Send(req)
            },
        }
    }

    /// Takes the reply to the last request sent and says what to do next.
    pub fn advance(&mut self, ev: Event) -> (step: Step)
        requires
            !(old(self).stage is Finished),
        ensures
            transition(*old(self), ev, *final(self), step),
    {
        let rep = reply(ev);
        match self.stage {
            Stage::Probe => {
                let hit = match read_text(rep) {
                    Ok(current) => current == self.tab.id,
                    Err(_) => false,
                };
                if hit {
                    self.proceed()
                } else {
                    let req = post(&self.tab, "/window", handle_body(self.tab.id.as_str()));
                    self.stage = Stage::Switch;
                    Step::Send(req)
                }
            },
            Stage::Switch => match read_unit(rep) {
                Ok(()) => self.proceed(),
                Err(e) => {
                    self.stage = Stage::Finished;
                    Step::Finish(Err(e))
                },
            },
            Stage::Act => {
                let out = settle(&self.command, rep);
                self.stage = Stage::Finished;
                Step::Finish(out)
            },
            Stage::Finished => Step::Finish(Err(WebdriverError::InvalidResponse)),
        }
    }
}

/// The outcome of a command, from the reply to its request.
fn settle(command: &Command, reply: Result<Json, WebdriverError>) -> (r: Result<Payload, WebdriverError>)
    ensures
        settles(*command, reply, r),
{
    match command {
        Command::GetUrl | Command::GetTitle => match read_text(reply) {
            Ok(s) => Ok(Payload::Text(s)),
            Err(e) => Err(e),
        },
        Command::Close => match read_close(reply) {
            Ok(()) => Ok(Payload::Done),
            Err(e) => Err(e),
        },
        Command::Find(_, _) => match read_element(reply) {
            Ok(found) => Ok(Payload::Element(found)),
            Err(e) => Err(e),
        },
        _ => match read_unit(reply) {
            Ok(()) => Ok(Payload::Done),
            Err(e) => Err(e),
        },
    }
}

} // verus!
