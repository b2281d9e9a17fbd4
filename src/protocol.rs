//! The command envelope: requests to send, the bodies they carry, and the
//! reading of replies into results or typed failures.

use vstd::prelude::*;
use crate::error::{WebdriverError, denotes, known_error};
use crate::json::{
    Json, decode, dumped, encode, field, is_text, keys, lemma_lookup_absent, lemma_lookup_at, member,
    parsed, whole,
};

verus! {

/// The WebDriver server that every path is relative to.
pub const ENDPOINT: &'static str = "http://localhost:4444";

/// The key under which a reply names a found element.
pub const ELEMENT_KEY: &'static str = "element-6066-11e4-a52e-4f735466cecf";

/// An HTTP verb.
#[derive(Debug, Clone, Copy, PartialEq, Eq)]
pub enum Method {
    Get,
    Post,
    Delete,
}

/// One request to the WebDriver server.
#[derive(Debug, PartialEq)]
pub struct Request {
    pub method: Method,
    /// The path after the server's address, starting with `/session`.
    pub path: String,
    pub body: Option<Json>,
}

/// What came back from the server for a request, or for a launch.
#[derive(Debug, PartialEq)]
pub enum Event {
    /// The driver process that was asked for has been started.
    Launched,
    /// No answer: nothing listening, a timeout, or another transport failure.
    Unreachable,
    /// An answer whose body is not text.
    Unreadable,
    /// An answer with this body.
    Body(String),
}

/// A browser to automate.
#[derive(Debug, Clone, Copy, PartialEq, Eq)]
pub enum Browser {
    Firefox,
    Chrome,
}

/// The operating system that the browser runs on.
#[derive(Debug, Clone, Copy, PartialEq, Eq)]
pub enum Platform {
    Linux,
    Mac,
    Windows,
    Unknown,
}

/// How an element is looked for.
#[derive(Debug, Clone, Copy, PartialEq, Eq)]
pub enum Selector {
    Css,
    LinkText,
    PartialLinkText,
    TagName,
    XPath,
}

/// The timeouts of a session, in milliseconds.
#[derive(Debug, Clone, Copy, PartialEq, Eq)]
pub struct Timeouts {
    pub script: Option<u64>,
    pub page_load: u64,
    pub implicit: u64,
}

pub open spec fn browser_name(b: Browser) -> Seq<char> {
    match b {
        Browser::Firefox => "firefox"@,
        Browser::Chrome => "chrome"@,
    }
}

/// The capability key under which a browser takes its own options.
pub open spec fn vendor_key(b: Browser) -> Seq<char> {
    match b {
        Browser::Firefox => "moz:firefoxOptions"@,
        Browser::Chrome => "goog:chromeOptions"@,
    }
}

pub open spec fn driver_name(b: Browser) -> Seq<char> {
    match b {
        Browser::Firefox => "geckodriver"@,
        Browser::Chrome => "chromedriver"@,
    }
}

pub open spec fn platform_name(p: Platform) -> Seq<char> {
    match p {
        Platform::Linux => "linux"@,
        Platform::Mac => "mac"@,
        Platform::Windows => "windows"@,
        Platform::Unknown => "unknown"@,
    }
}

/// A driver can be launched from here on Unix-like systems only.
pub open spec fn can_launch(p: Platform) -> bool {
    p is Linux || p is Mac
}

pub open spec fn selector_name(s: Selector) -> Seq<char> {
    match s {
        Selector::Css => "css selector"@,
        Selector::LinkText => "link text"@,
        Selector::PartialLinkText => "partial link text"@,
        Selector::TagName => "tag name"@,
        Selector::XPath => "xpath"@,
    }
}

/// The path of a session, to which each command appends its own part.
pub open spec fn session_path(id: Seq<char>) -> Seq<char> {
    "/session/"@ + id
}

impl Browser {
    pub fn name(self) -> (r: &'static str)
        ensures
            r@ == browser_name(self),
    {
        match self {
            Browser::Firefox => "firefox",
            Browser::Chrome => "chrome",
        }
    }

    pub fn vendor_key(self) -> (r: &'static str)
        ensures
            r@ == vendor_key(self),
    {
        match self {
            Browser::Firefox => "moz:firefoxOptions",
            Browser::Chrome => "goog:chromeOptions",
        }
    }

    /// The driver program that serves this browser.
    pub fn driver(self) -> (r: &'static str)
        ensures
            r@ == driver_name(self),
    {
        match self {
            Browser::Firefox => "geckodriver",
            Browser::Chrome => "chromedriver",
        }
    }
}

impl Platform {
    pub fn name(self) -> (r: &'static str)
        ensures
            r@ == platform_name(self),
    {
        match self {
            Platform::Linux => "linux",
            Platform::Mac => "mac",
            Platform::Windows => "windows",
            Platform::Unknown => "unknown",
        }
    }

    /// Whether a driver may be launched on this platform.
    pub fn can_launch(self) -> (r: bool)
        ensures
            r == can_launch(self),
    {
        match self {
            Platform::Linux | Platform::Mac => true,
            _ => false,
        }
    }
}

impl Selector {
    /// The strategy name that the protocol uses.
    pub fn to_string(&self) -> (r: String)
        ensures
            r@ == selector_name(*self),
    {
        match self {
            Selector::Css => "css selector".to_owned(),
            Selector::LinkText => "link text".to_owned(),
            Selector::PartialLinkText => "partial link text".to_owned(),
            Selector::TagName => "tag name".to_owned(),
            Selector::XPath => "xpath".to_owned(),
        }
    }
}

/// `/session/<id>` followed by `suffix`.
pub fn session_path_with(id: &str, suffix: &str) -> (r: String)
    ensures
        r@ == session_path(id@) + suffix@,
{
    let mut p = "/session/".to_owned();
    p.append(id);
    p.append(suffix);
    p
}

impl Request {
    /// The full address of this request.
    pub fn url(&self) -> (r: String)
        ensures
            r@ == ENDPOINT@ + self.path@,
    {
        let mut u = ENDPOINT.to_owned();
        u.append(self.path.as_str());
        u
    }

    /// The text of the body, if there is one.
    pub fn body_text(&self) -> (r: Option<String>)
        ensures
            match self.body {
                Some(j) => r is Some && r->Some_0@ == dumped(j),
                None => r is None,
            },
    {
        match &self.body {
            Some(j) => Some(encode(j)),
            None => None,
        }
    }
}

/// What a reply amounts to before its shape is read: the decoded JSON, or
/// the failure of the transport or of the decoding.
pub open spec fn reply_of(ev: Event) -> Result<Json, WebdriverError> {
    match ev {
        Event::Body(text) => match parsed(text@) {
            Some(j) => Ok(j),
            None => Err(WebdriverError::InvalidResponse),
        },
        Event::Unreachable => Err(WebdriverError::FailedRequest),
        _ => Err(WebdriverError::InvalidResponse),
    }
}

/// The `value` member of a decoded reply.
pub open spec fn value_of(j: Json) -> Json {
    member(j, "value"@)
}

/// `e` is the failure that `reply` reports: the transport's or decoder's own,
/// the failure named by `value.error` where that is a string, or else an
/// unexpected shape.
pub open spec fn failure(reply: Result<Json, WebdriverError>, e: WebdriverError) -> bool {
    match reply {
        Err(x) => e == x,
        Ok(j) => {
            let code = member(value_of(j), "error"@);
            if code is Str {
                denotes(e, code->Str_0@)
            } else {
                e == WebdriverError::InvalidResponse
            }
        },
    }
}

/// The result of a command whose success is a `null` value.
pub open spec fn unit_read(reply: Result<Json, WebdriverError>, r: Result<(), WebdriverError>) -> bool {
    if reply is Ok && value_of(reply->Ok_0) is Null {
        r is Ok
    } else {
        r is Err && failure(reply, r->Err_0)
    }
}

/// The result of a command whose success is the string at `value`.
pub open spec fn text_read(reply: Result<Json, WebdriverError>, r: Result<String, WebdriverError>) -> bool {
    if reply is Ok && value_of(reply->Ok_0) is Str {
        r == Ok::<String, WebdriverError>(value_of(reply->Ok_0)->Str_0)
    } else {
        r is Err && failure(reply, r->Err_0)
    }
}

/// The result of a command whose success is the string at `value.<key>`.
pub open spec fn member_read(
    reply: Result<Json, WebdriverError>,
    key: Seq<char>,
    r: Result<String, WebdriverError>,
) -> bool {
    if reply is Ok && member(value_of(reply->Ok_0), key) is Str {
        r == Ok::<String, WebdriverError>(member(value_of(reply->Ok_0), key)->Str_0)
    } else {
        r is Err && failure(reply, r->Err_0)
    }
}

/// The result of closing a window: any reply without an error is a success.
pub open spec fn close_read(reply: Result<Json, WebdriverError>, r: Result<(), WebdriverError>) -> bool {
    if reply is Ok && !(member(value_of(reply->Ok_0), "error"@) is Str) {
        r is Ok
    } else {
        r is Err && failure(reply, r->Err_0)
    }
}

/// The result of looking for an element: its reference, none where the
/// server reports no such element, or a failure.
pub open spec fn element_read(
    reply: Result<Json, WebdriverError>,
    r: Result<Option<String>, WebdriverError>,
) -> bool {
    match reply {
        Err(e) => r == Err::<Option<String>, WebdriverError>(e),
        Ok(j) => {
            let found = member(value_of(j), ELEMENT_KEY@);
            let code = member(value_of(j), "error"@);
            if found is Str {
                r == Ok::<Option<String>, WebdriverError>(Some(found->Str_0))
            } else if !(found is Null) {
                r == Err::<Option<String>, WebdriverError>(WebdriverError::InvalidResponse)
            } else if code is Str && known_error(code->Str_0@) == Some(WebdriverError::NoSuchElement) {
                r == Ok::<Option<String>, WebdriverError>(None)
            } else {
                r is Err && failure(reply, r->Err_0)
            }
        },
    }
}

/// The list of window handles in a value: the value itself, or its `handles` member.
pub open spec fn handle_list(v: Json) -> Json {
    if v is List {
        v
    } else {
        member(v, "handles"@)
    }
}

/// Every item of `items` is a string.
pub open spec fn all_text(items: Seq<Json>) -> bool {
    forall|i: int| 0 <= i < items.len() ==> (#[trigger] items[i]) is Str
}

/// The strings held by `items`.
pub open spec fn texts(items: Seq<Json>) -> Seq<String> {
    items.map_values(|j: Json| j->Str_0)
}

/// The result of listing the window handles.
pub open spec fn handles_read(
    reply: Result<Json, WebdriverError>,
    r: Result<Vec<String>, WebdriverError>,
) -> bool {
    let list = handle_list(value_of(reply->Ok_0));
    if reply is Ok && list is List && all_text(list->List_0@) {
        r is Ok && r->Ok_0@ == texts(list->List_0@)
    } else {
        r is Err && failure(reply, r->Err_0)
    }
}

/// The script timeout in a value: absent or `null` for none.
pub open spec fn script_timeout(v: Json) -> Option<Option<u64>> {
    let s = member(v, "script"@);
    if s is Null {
        Some(None)
    } else if whole(s) is Some {
        Some(whole(s))
    } else {
        None
    }
}

/// The timeouts that a value holds, if it holds them all.
pub open spec fn timeouts_in(v: Json) -> Option<Timeouts> {
    let page_load = whole(member(v, "pageLoad"@));
    let implicit = whole(member(v, "implicit"@));
    let script = script_timeout(v);
    if page_load is Some && implicit is Some && script is Some {
        Some(Timeouts { script: script->Some_0, page_load: page_load->Some_0, implicit: implicit->Some_0 })
    } else {
        None
    }
}

/// The result of asking for the timeouts.
pub open spec fn timeouts_read(
    reply: Result<Json, WebdriverError>,
    r: Result<Timeouts, WebdriverError>,
) -> bool {
    if reply is Ok && timeouts_in(value_of(reply->Ok_0)) is Some {
        r == Ok::<Timeouts, WebdriverError>(timeouts_in(value_of(reply->Ok_0))->Some_0)
    } else {
        r is Err && failure(reply, r->Err_0)
    }
}

/// Timeouts sent in a request body come back unchanged from a server that
/// echoes that body as the reply's value.
pub proof fn lemma_timeouts_round_trip(
    t: Timeouts,
    sent: Json,
    reply: Result<Json, WebdriverError>,
    r: Result<Timeouts, WebdriverError>,
)
    requires
        timeouts_in(sent) == Some(t),
        reply is Ok,
        value_of(reply->Ok_0) == sent,
        timeouts_read(reply, r),
    ensures
        r == Ok::<Timeouts, WebdriverError>(t),
{
}

/// Decodes what came back for a request.
pub fn reply(ev: Event) -> (r: Result<Json, WebdriverError>)
    ensures
        r == reply_of(ev),
{
    match ev {
        Event::Body(text) => match decode(text.as_str()) {
            Some(j) => Ok(j),
            None => Err(WebdriverError::InvalidResponse),
        },
        Event::Unreachable => Err(WebdriverError::FailedRequest),
        _ => Err(WebdriverError::InvalidResponse),
    }
}

/// The failure that a reply reports, when it is not the success expected.
pub fn failure_of(reply: Result<Json, WebdriverError>) -> (e: WebdriverError)
    ensures
        failure(reply, e),
{
    match reply {
        Err(x) => x,
        Ok(j) => match value_member(&j, "error") {
            Some(Json::Str(code)) => WebdriverError::from_wire(code.as_str()),
            _ => WebdriverError::InvalidResponse,
        },
    }
}

/// The `value` member of a decoded reply.
fn value(j: &Json) -> (r: Option<&Json>)
    ensures
        match r {
            Some(x) => field(*j, "value"@) == Some(*x),
            None => field(*j, "value"@) is None,
        },
{
    j.get("value")
}

/// The member `key` of the reply's value, if there is one.
fn value_member<'a>(j: &'a Json, key: &str) -> (r: Option<&'a Json>)
    ensures
        match r {
            Some(x) => member(value_of(*j), key@) == *x,
            None => member(value_of(*j), key@) is Null,
        },
{
    match value(j) {
        Some(v) => v.get(key),
        None => None,
    }
}

/// Reads a reply whose success is a `null` value.
pub fn read_unit(reply: Result<Json, WebdriverError>) -> (r: Result<(), WebdriverError>)
    ensures
        unit_read(reply, r),
{
    let ok = match &reply {
        Ok(j) => match value(j) {
            Some(Json::Null) | None => true,
            _ => false,
        },
        Err(_) => false,
    };
    if ok {
        Ok(())
    } else {
        Err(failure_of(reply))
    }
}

/// Reads a reply whose success is a string value.
pub fn read_text(reply: Result<Json, WebdriverError>) -> (r: Result<String, WebdriverError>)
    ensures
        text_read(reply, r),
{
    let found = match &reply {
        Ok(j) => match value(j) {
            Some(Json::Str(s)) => Some(s.clone()),
            _ => None,
        },
        Err(_) => None,
    };
    match found {
        Some(s) => Ok(s),
        None => Err(failure_of(reply)),
    }
}

/// Reads a reply whose success is a string at `value.<key>`.
pub fn read_member(reply: Result<Json, WebdriverError>, key: &str) -> (r: Result<String, WebdriverError>)
    ensures
        member_read(reply, key@, r),
{
    let found = match &reply {
        Ok(j) => match value_member(j, key) {
            Some(Json::Str(s)) => Some(s.clone()),
            _ => None,
        },
        Err(_) => None,
    };
    match found {
        Some(s) => Ok(s),
        None => Err(failure_of(reply)),
    }
}

/// Reads the reply to closing a window.
pub fn read_close(reply: Result<Json, WebdriverError>) -> (r: Result<(), WebdriverError>)
    ensures
        close_read(reply, r),
{
    let ok = match &reply {
        Ok(j) => match value_member(j, "error") {
            Some(Json::Str(_)) => false,
            _ => true,
        },
        Err(_) => false,
    };
    if ok {
        Ok(())
    } else {
        Err(failure_of(reply))
    }
}


/// Reads the reply to looking for an element.
pub fn read_element(reply: Result<Json, WebdriverError>) -> (r: Result<Option<String>, WebdriverError>)
    ensures
        element_read(reply, r),
{
    match &reply {
        Ok(j) => {
            match value_member(j, ELEMENT_KEY) {
                Some(Json::Str(s)) => return Ok(Some(s.clone())),
                Some(Json::Null) | None => {},
                Some(_) => return Err(WebdriverError::InvalidResponse),
            }
        },
        Err(_) => {},
    }
    let direct = reply.is_err();
    let e = failure_of(reply);
    match e {
        WebdriverError::NoSuchElement if !direct => Ok(None),
        _ => Err(e),
    }
}

/// Reads the list of window handles.
pub fn read_handles(reply: Result<Json, WebdriverError>) -> (r: Result<Vec<String>, WebdriverError>)
    ensures
        handles_read(reply, r),
{
    let found = match &reply {
        Ok(j) => {
            let list = match value(j) {
                Some(Json::List(items)) => Some(items),
                _ => match value_member(j, "handles") {
                    Some(Json::List(items)) => Some(items),
                    _ => None,
                },
            };
            match list {
                Some(items) => texts_of(items),
                None => None,
            }
        },
        Err(_) => None,
    };
    match found {
        Some(hs) => Ok(hs),
        None => Err(failure_of(reply)),
    }
}

/// The strings of `items`, if every item is one.
fn texts_of(items: &Vec<Json>) -> (r: Option<Vec<String>>)
    ensures
        match r {
            Some(v) => all_text(items@) && v@ == texts(items@),
            None => !all_text(items@),
        },
{
    let mut out: Vec<String> = Vec::new();
    let mut i: usize = 0;
    while i < items.len()
        invariant
            i <= items@.len(),
            all_text(items@.subrange(0, i as int)),
            out@ == texts(items@.subrange(0, i as int)),
        decreases items@.len() - i,
    {
        match &items[i] {
            Json::Str(s) => out.push(s.clone()),
            _ => return None,
        }
        assert(items@.subrange(0, i + 1) =~= items@.subrange(0, i as int).push(items@[i as int]));
        i = i + 1;
    }
    assert(items@.subrange(0, i as int) =~= items@);
    Some(out)
}

/// Reads the timeouts of a session.
pub fn read_timeouts(reply: Result<Json, WebdriverError>) -> (r: Result<Timeouts, WebdriverError>)
    ensures
        timeouts_read(reply, r),
{
    let found = match &reply {
        Ok(j) => timeouts_of(j),
        Err(_) => None,
    };
    match found {
        Some(t) => Ok(t),
        None => Err(failure_of(reply)),
    }
}

fn whole_member(j: &Json, key: &str) -> (r: Option<u64>)
    ensures
        r == whole(member(value_of(*j), key@)),
{
    match value_member(j, key) {
        Some(x) => x.as_whole(),
        None => None,
    }
}

fn timeouts_of(j: &Json) -> (r: Option<Timeouts>)
    ensures
        r == timeouts_in(value_of(*j)),
{
    let page_load = whole_member(j, "pageLoad");
    let implicit = whole_member(j, "implicit");
    let script = match value_member(j, "script") {
        Some(Json::Null) | None => Some(None),
        Some(x) => match x.as_whole() {
            Some(n) => Some(Some(n)),
            None => None,
        },
    };
    match (page_load, implicit, script) {
        (Some(page_load), Some(implicit), Some(script)) => Some(Timeouts { script, page_load, implicit }),
        _ => None,
    }
}


/// `j` is an object whose members are named `names`, in that order.
pub open spec fn shaped(j: Json, names: Seq<Seq<char>>) -> bool {
    j is Object && keys(j) == names
}

/// `j` is a list of strings that are `items`.
pub open spec fn text_list(j: Json, items: Seq<String>) -> bool {
    j is List && all_text(j->List_0@) && texts(j->List_0@) == items
}

/// `j` is the JSON number `n`.
pub open spec fn is_whole(j: Json, n: u64) -> bool {
    j == Json::Number(true, n, 0)
}

fn entry(key: &str, value: Json) -> (r: (String, Json))
    ensures
        r.0@ == key@,
        r.1 == value,
{
    (key.to_owned(), value)
}

fn number(n: u64) -> (r: Json)
    ensures
        is_whole(r, n),
        whole(r) == Some(n),
{
    Json::Number(true, n, 0)
}

/// The body that switches to the window `handle`: `{"handle": handle}`.
pub fn handle_body(handle: &str) -> (r: Json)
    ensures
        shaped(r, seq!["handle"@]),
        is_text(member(r, "handle"@), handle@),
{
    let r = Json::Object(vec![entry("handle", Json::text(handle))]);
    assert(keys(r) =~= seq!["handle"@]);
    r
}

/// The body that loads `url`: `{"url": url}`.
pub fn url_body(url: &str) -> (r: Json)
    ensures
        shaped(r, seq!["url"@]),
        is_text(member(r, "url"@), url@),
{
    let r = Json::Object(vec![entry("url", Json::text(url))]);
    assert(keys(r) =~= seq!["url"@]);
    r
}

/// The empty object, for commands that take no parameters.
pub fn empty_body() -> (r: Json)
    ensures
        shaped(r, Seq::empty()),
{
    let r = Json::Object(Vec::new());
    assert(keys(r) =~= Seq::empty());
    r
}

/// The body that looks for an element: `{"using": selector, "value": target}`.
pub fn find_body(selector: Selector, target: &str) -> (r: Json)
    ensures
        shaped(r, seq!["using"@, "value"@]),
        is_text(member(r, "using"@), selector_name(selector)),
        is_text(member(r, "value"@), target@),
{
    proof {
        reveal_strlit("using");
        reveal_strlit("value");
    }
    let r = Json::Object(vec![
        entry("using", Json::Str(selector.to_string())),
        entry("value", Json::text(target)),
    ]);
    assert(keys(r) =~= seq!["using"@, "value"@]);
    proof {
        assert("using"@[0] != "value"@[0]);
        assert(r->Object_0@[0].0@ != "value"@);
        lemma_lookup_at(r->Object_0@, "value"@, 1);
    }
    r
}

/// The body that runs a script: `{"script": script, "args": [args...]}`.
pub fn script_body(script: &str, args: &Vec<String>) -> (r: Json)
    ensures
        shaped(r, seq!["script"@, "args"@]),
        is_text(member(r, "script"@), script@),
        text_list(member(r, "args"@), args@),
{
    proof {
        reveal_strlit("script");
        reveal_strlit("args");
    }
    let mut items: Vec<Json> = Vec::new();
    let mut i: usize = 0;
    while i < args.len()
        invariant
            i <= args@.len(),
            items@.len() == i,
            all_text(items@),
            texts(items@) == args@.subrange(0, i as int),
        decreases args@.len() - i,
    {
        items.push(Json::Str(args[i].clone()));
        assert(texts(items@) =~= args@.subrange(0, i + 1));
        i = i + 1;
    }
    assert(args@.subrange(0, i as int) =~= args@);
    let r = Json::Object(vec![entry("script", Json::text(script)), entry("args", Json::List(items))]);
    assert(keys(r) =~= seq!["script"@, "args"@]);
    proof {
        assert("script"@.len() != "args"@.len());
        assert(r->Object_0@[0].0@ != "args"@);
        lemma_lookup_at(r->Object_0@, "args"@, 1);
    }
    r
}

/// The body that sets the timeouts; the script timeout only where there is one.
pub fn timeouts_body(t: Timeouts) -> (r: Json)
    ensures
        t.script is Some ==> shaped(r, seq!["script"@, "pageLoad"@, "implicit"@]),
        t.script is Some ==> is_whole(member(r, "script"@), t.script->Some_0),
        t.script is None ==> shaped(r, seq!["pageLoad"@, "implicit"@]),
        is_whole(member(r, "pageLoad"@), t.page_load),
        is_whole(member(r, "implicit"@), t.implicit),
        timeouts_in(r) == Some(t),
{
    proof {
        reveal_strlit("script");
        reveal_strlit("pageLoad");
        reveal_strlit("implicit");
    }
    let mut members: Vec<(String, Json)> = Vec::new();
    match t.script {
        Some(n) => members.push(entry("script", number(n))),
        None => {},
    }
    members.push(entry("pageLoad", number(t.page_load)));
    members.push(entry("implicit", number(t.implicit)));
    let r = Json::Object(members);
    proof {
        let ms = members@;
        if t.script is Some {
            assert(keys(r) =~= seq!["script"@, "pageLoad"@, "implicit"@]);
            assert("script"@.len() != "pageLoad"@.len());
            assert("script"@.len() != "implicit"@.len());
            assert("pageLoad"@[0] != "implicit"@[0]);
            assert(ms[0].0@ != "pageLoad"@);
            assert(ms[0].0@ != "implicit"@ && ms[1].0@ != "implicit"@);
            lemma_lookup_at(ms, "pageLoad"@, 1);
            lemma_lookup_at(ms, "implicit"@, 2);
        } else {
            assert(keys(r) =~= seq!["pageLoad"@, "implicit"@]);
            assert("script"@.len() != "pageLoad"@.len());
            assert("script"@.len() != "implicit"@.len());
            assert("pageLoad"@[0] != "implicit"@[0]);
            assert(ms[0].0@ != "implicit"@);
            assert(ms[0].0@ != "script"@ && ms[1].0@ != "script"@);
            lemma_lookup_at(ms, "implicit"@, 1);
            lemma_lookup_absent(ms, "script"@);
        }
    }
    r
}


/// `j` is the argument list `["-headless"]`.
pub open spec fn headless_args(j: Json) -> bool {
    j is List && j->List_0@.len() == 1 && is_text(j->List_0@[0], "-headless"@)
}

/// The capabilities that a session is asked for: the platform and browser
/// names, and the browser's own options only where headless mode is wanted.
pub open spec fn capabilities_for(j: Json, browser: Browser, platform: Platform, headless: bool) -> bool {
    let caps = member(j, "capabilities"@);
    let wanted = member(caps, "alwaysMatch"@);
    &&& shaped(j, seq!["capabilities"@])
    &&& shaped(caps, seq!["alwaysMatch"@])
    &&& is_text(member(wanted, "platformName"@), platform_name(platform))
    &&& is_text(member(wanted, "browserName"@), browser_name(browser))
    &&& if headless {
        &&& shaped(wanted, seq!["platformName"@, "browserName"@, vendor_key(browser)])
        &&& shaped(member(wanted, vendor_key(browser)), seq!["args"@])
        &&& headless_args(member(member(wanted, vendor_key(browser)), "args"@))
    } else {
        shaped(wanted, seq!["platformName"@, "browserName"@])
    }
}

/// The body that asks for a new session.
pub fn capabilities(browser: Browser, platform: Platform, headless: bool) -> (r: Json)
    ensures
        capabilities_for(r, browser, platform, headless),
{
    proof {
        reveal_strlit("platformName");
        reveal_strlit("browserName");
        reveal_strlit("moz:firefoxOptions");
        reveal_strlit("goog:chromeOptions");
    }
    let mut wanted: Vec<(String, Json)> = Vec::new();
    wanted.push(entry("platformName", Json::text(platform.name())));
    wanted.push(entry("browserName", Json::text(browser.name())));
    if headless {
        let args = Json::List(vec![Json::text("-headless")]);
        let options = Json::Object(vec![entry("args", args)]);
        assert(keys(options) =~= seq!["args"@]);
        wanted.push(entry(browser.vendor_key(), options));
    }
    let ghost ws = wanted@;
    let inner = Json::Object(wanted);
    let caps = Json::Object(vec![entry("alwaysMatch", inner)]);
    let r = Json::Object(vec![entry("capabilities", caps)]);
    proof {
        assert(keys(r) =~= seq!["capabilities"@]);
        assert(keys(caps) =~= seq!["alwaysMatch"@]);
        assert("platformName"@[0] != "browserName"@[0]);
        assert(ws[0].0@ != "browserName"@);
        lemma_lookup_at(ws, "browserName"@, 1);
        if headless {
            assert(keys(inner) =~= seq!["platformName"@, "browserName"@, vendor_key(browser)]);
            match browser {
                Browser::Firefox => {
                    assert("platformName"@[0] != "moz:firefoxOptions"@[0]);
                    assert("browserName"@[0] != "moz:firefoxOptions"@[0]);
                },
                Browser::Chrome => {
                    assert("platformName"@[0] != "goog:chromeOptions"@[0]);
                    assert("browserName"@[0] != "goog:chromeOptions"@[0]);
                },
            }
            assert(ws[0].0@ != vendor_key(browser) && ws[1].0@ != vendor_key(browser));
            lemma_lookup_at(ws, vendor_key(browser), 2);
        } else {
            assert(keys(inner) =~= seq!["platformName"@, "browserName"@]);
        }
    }
    r
}

} // verus!
