//! Sessions: creation (with a fallback launch of the driver), the tabs that
//! a session knows of, and its timeouts.

use vstd::prelude::*;
use crate::error::WebdriverError;
use crate::json::{Json, member};
use crate::protocol::{
    Browser, Event, Method, Platform, Request, Timeouts, all_text, can_launch, capabilities,
    capabilities_for, driver_name, empty_body, failure, handle_list, read_handles,
    read_member, read_timeouts, read_unit, reply, reply_of, session_path, session_path_with,
    shaped, texts, timeouts_body, timeouts_in, timeouts_read, unit_read, value_of,
};
use crate::tab::Tab;

verus! {

/// One automation session of a browser.
#[derive(Debug)]
pub struct Session {
    /// The id that the server gave this session.
    pub id: String,
    /// Every tab known to this session: the ones opened through it and the
    /// ones found by [`Session::update_tabs`].
    pub tabs: Vec<Tab>,
}

impl PartialEq for Session {
    /// Sessions are the same when their ids are the same.
    fn eq(&self, other: &Session) -> (r: bool) {
        self.id == other.id
    }
}

impl vstd::std_specs::cmp::PartialEqSpecImpl for Session {
    open spec fn obeys_eq_spec() -> bool {
        true
    }

    open spec fn eq_spec(&self, other: &Session) -> bool {
        self.id@ == other.id@
    }
}

/// The handles of `tabs`, in order.
pub open spec fn tab_ids(tabs: Seq<Tab>) -> Seq<Seq<char>> {
    tabs.map_values(|t: Tab| t.id@)
}

/// The texts of `items`.
pub open spec fn views(items: Seq<String>) -> Seq<Seq<char>> {
    items.map_values(|s: String| s@)
}

/// The handles known after discovering `found`: those of `known`, then each
/// handle of `found` that is not known yet, in the order found.
pub open spec fn merged(known: Seq<Seq<char>>, found: Seq<Seq<char>>) -> Seq<Seq<char>>
    decreases found.len(),
{
    if found.len() == 0 {
        known
    } else {
        let m = merged(known, found.drop_last());
        if m.contains(found.last()) {
            m
        } else {
            m.push(found.last())
        }
    }
}

/// Every handle found is known after a discovery.
pub proof fn lemma_merged_holds_found(known: Seq<Seq<char>>, found: Seq<Seq<char>>)
    ensures
        forall|x: Seq<char>| found.contains(x) ==> merged(known, found).contains(x),
    decreases found.len(),
{
    if found.len() > 0 {
        let rest = found.drop_last();
        lemma_merged_holds_found(known, rest);
        let m = merged(known, rest);
        assert forall|x: Seq<char>| found.contains(x) implies merged(known, found).contains(x) by {
            let i = choose|i: int| 0 <= i < found.len() && found[i] == x;
            if i < found.len() - 1 {
                assert(rest[i] == x);
                assert(rest.contains(x));
                if !m.contains(found.last()) {
                    let j = choose|j: int| 0 <= j < m.len() && m[j] == x;
                    assert(m.push(found.last())[j] == x);
                }
            } else {
                if !m.contains(found.last()) {
                    assert(m.push(found.last())[m.len() as int] == x);
                }
            }
        }
    }
}

/// Discovering handles that are all known already changes nothing.
pub proof fn lemma_merged_known(known: Seq<Seq<char>>, found: Seq<Seq<char>>)
    requires
        forall|x: Seq<char>| found.contains(x) ==> known.contains(x),
    ensures
        merged(known, found) == known,
    decreases found.len(),
{
    if found.len() > 0 {
        let rest = found.drop_last();
        assert forall|x: Seq<char>| rest.contains(x) implies known.contains(x) by {
            let i = choose|i: int| 0 <= i < rest.len() && rest[i] == x;
            assert(found[i] == x);
        }
        lemma_merged_known(known, rest);
        assert(found[found.len() - 1] == found.last());
    }
}

/// Discovery is idempotent: running it twice over the same handles leaves the
/// known handles, and so the number of tabs, as the first run left them.
pub proof fn lemma_discovery_idempotent(known: Seq<Seq<char>>, found: Seq<Seq<char>>)
    ensures
        merged(merged(known, found), found) == merged(known, found),
        merged(merged(known, found), found).len() == merged(known, found).len(),
{
    lemma_merged_holds_found(known, found);
    lemma_merged_known(merged(known, found), found);
}

/// The handles that a reply lists, if it lists them.
pub open spec fn handles_in(reply: Result<Json, WebdriverError>) -> Option<Seq<String>> {
    let list = handle_list(value_of(reply->Ok_0));
    if reply is Ok && list is List && all_text(list->List_0@) {
        Some(texts(list->List_0@))
    } else {
        None
    }
}

/// Every tab of `tabs` belongs to the session `id`.
pub open spec fn owned_by(tabs: Seq<Tab>, id: Seq<char>) -> bool {
    forall|i: int| 0 <= i < tabs.len() ==> (#[trigger] tabs[i]).session_id@ == id
}

/// `post` is `pre` with the tabs of the handles `found` that it did not know.
pub open spec fn discovered(pre: Seq<Tab>, found: Seq<String>, id: Seq<char>, post: Seq<Tab>) -> bool {
    &&& post.subrange(0, pre.len() as int) == pre
    &&& pre.len() <= post.len()
    &&& tab_ids(post) == merged(tab_ids(pre), views(found))
    &&& owned_by(post.subrange(pre.len() as int, post.len() as int), id)
}

impl Session {
    /// The id that the server gave this session.
    pub fn get_id(&self) -> (r: &String)
        ensures
            *r == self.id,
    {
        &self.id
    }

    /// Adds a tab for each handle of `found` that no known tab has.
    fn merge(&mut self, found: &Vec<String>)
        ensures
            final(self).id == old(self).id,
            discovered(old(self).tabs@, found@, old(self).id@, final(self).tabs@),
    {
        let ghost pre = self.tabs@;
        let mut i: usize = 0;
        while i < found.len()
            invariant
                i <= found@.len(),
                self.id == old(self).id,
                pre == old(self).tabs@,
                self.tabs@.subrange(0, pre.len() as int) == pre,
                pre.len() <= self.tabs@.len(),
                tab_ids(self.tabs@) == merged(tab_ids(pre), views(found@.subrange(0, i as int))),
                owned_by(self.tabs@.subrange(pre.len() as int, self.tabs@.len() as int), self.id@),
            decreases found@.len() - i,
        {
            let handle = &found[i];
            let ghost before = self.tabs@;
            let mut known = false;
            let mut j: usize = 0;
            while j < self.tabs.len()
                invariant
                    j <= self.tabs@.len(),
                    self.tabs@ == before,
                    known <==> exists|k: int| 0 <= k < j && (#[trigger] self.tabs@[k]).id@ == handle@,
                decreases self.tabs@.len() - j,
            {
                if self.tabs[j].id == *handle {
                    known = true;
                }
                j = j + 1;
            }
            let ghost ids = tab_ids(before);
            assert(views(found@.subrange(0, i + 1)).drop_last() =~= views(found@.subrange(0, i as int)));
            assert(views(found@.subrange(0, i + 1)).last() == handle@);
            if known {
                proof {
                    let k = choose|k: int| 0 <= k < before.len() && (#[trigger] before[k]).id@ == handle@;
                    assert(ids[k] == handle@);
                }
            } else {
                assert forall|k: int| 0 <= k < ids.len() implies ids[k] != handle@ by {
                    assert(ids[k] == before[k].id@);
                }
                let tab = Tab::new_from(handle.clone(), self.id.clone());
                self.tabs.push(tab);
                assert(tab_ids(self.tabs@) =~= ids.push(handle@));
                assert(self.tabs@.subrange(0, pre.len() as int) =~= before.subrange(0, pre.len() as int));
                let ghost added = self.tabs@.subrange(pre.len() as int, self.tabs@.len() as int);
                assert forall|k: int| 0 <= k < added.len() implies (#[trigger] added[k]).session_id@ == self.id@ by {
                    if k < added.len() - 1 {
                        assert(added[k] == before.subrange(pre.len() as int, before.len() as int)[k]);
                    }
                }
            }
            i = i + 1;
        }
        assert(found@.subrange(0, i as int) =~= found@);
    }
}


/// The handle of the window that a reply announces, if it announces one.
pub open spec fn new_handle(reply: Result<Json, WebdriverError>) -> Option<String> {
    let h = member(value_of(reply->Ok_0), "handle"@);
    if reply is Ok && h is Str {
        Some(h->Str_0)
    } else {
        None
    }
}

/// `req` is `method` on the path `suffix` of the session `id`, without a body.
pub open spec fn bare_request(id: Seq<char>, req: Request, method: Method, suffix: Seq<char>) -> bool {
    req.method == method && req.path@ == session_path(id) + suffix && req.body is None
}

fn bare(id: &String, method: Method, suffix: &str) -> (r: Request)
    ensures
        bare_request(id@, r, method, suffix@),
{
    Request { method, path: session_path_with(id.as_str(), suffix), body: None }
}

impl Session {
    /// The request that lists the open windows.
    pub fn update_tabs_request(&self) -> (r: Request)
        ensures
            bare_request(self.id@, r, Method::Get, "/window/handles"@),
    {
        bare(&self.id, Method::Get, "/window/handles")
    }

    /// Adds a tab for each listed window that the session does not know yet.
    pub fn update_tabs(&mut self, ev: Event) -> (r: Result<(), WebdriverError>)
        ensures
            final(self).id == old(self).id,
            match handles_in(reply_of(ev)) {
                Some(found) => r is Ok && discovered(old(self).tabs@, found, old(self).id@, final(self).tabs@),
                None => r is Err && failure(reply_of(ev), r->Err_0) && final(self).tabs@ == old(self).tabs@,
            },
    {
        match read_handles(reply(ev)) {
            Ok(found) => {
                self.merge(&found);
                Ok(())
            },
            Err(e) => Err(e),
        }
    }

    /// The request that opens a new window.
    pub fn open_tab_request(&self) -> (r: Request)
        ensures
            r.method == Method::Post,
            r.path@ == session_path(self.id@) + "/window/new"@,
            r.body is Some && shaped(r.body->Some_0, Seq::empty()),
    {
        Request {
            method: Method::Post,
            path: session_path_with(self.id.as_str(), "/window/new"),
            body: Some(empty_body()),
        }
    }

    /// Adds the tab that the server opened; its position among the tabs.
    pub fn open_tab(&mut self, ev: Event) -> (r: Result<usize, WebdriverError>)
        ensures
            final(self).id == old(self).id,
            match new_handle(reply_of(ev)) {
                Some(h) => {
                    &&& r is Ok && r->Ok_0 == old(self).tabs@.len()
                    &&& final(self).tabs@.len() == old(self).tabs@.len() + 1
                    &&& final(self).tabs@.drop_last() == old(self).tabs@
                    &&& final(self).tabs@.last().id == h
                    &&& final(self).tabs@.last().session_id == old(self).id
                },
                None => r is Err && failure(reply_of(ev), r->Err_0) && final(self).tabs@ == old(self).tabs@,
            },
    {
        match read_member(reply(ev), "handle") {
            Ok(h) => {
                let tab = Tab::new_from(h, self.id.clone());
                self.tabs.push(tab);
                assert(self.tabs@.drop_last() =~= old(self).tabs@);
                Ok(self.tabs.len() - 1)
            },
            Err(e) => Err(e),
        }
    }

    /// The request that asks for the timeouts.
    pub fn get_timeouts_request(&self) -> (r: Request)
        ensures
            bare_request(self.id@, r, Method::Get, "/timeouts"@),
    {
        bare(&self.id, Method::Get, "/timeouts")
    }

    /// Reads the timeouts of the session.
    pub fn get_timeouts(&self, ev: Event) -> (r: Result<Timeouts, WebdriverError>)
        ensures
            timeouts_read(reply_of(ev), r),
    {
        read_timeouts(reply(ev))
    }

    /// The request that sets the timeouts.
    pub fn set_timeouts_request(&self, timeouts: Timeouts) -> (r: Request)
        ensures
            r.method == Method::Post,
            r.path@ == session_path(self.id@) + "/timeouts"@,
            r.body is Some && timeouts_in(r.body->Some_0) == Some(timeouts),
    {
        Request {
            method: Method::Post,
            path: session_path_with(self.id.as_str(), "/timeouts"),
            body: Some(timeouts_body(timeouts)),
        }
    }

    /// Reads the reply to setting the timeouts.
    pub fn set_timeouts(&mut self, ev: Event) -> (r: Result<(), WebdriverError>)
        ensures
            *final(self) == *old(self),
            unit_read(reply_of(ev), r),
    {
        read_unit(reply(ev))
    }

    /// Starts creating a session of `browser` on `platform`; headless means
    /// that the browser runs without showing a window.
    pub fn new(browser: Browser, platform: Platform, headless: bool) -> (r: Setup)
        ensures
            r.browser == browser,
            r.platform == platform,
            r.headless == headless,
            r.stage is Connect,
    {
        Setup { browser, platform, headless, stage: SetupStage::Connect, session_id: String::new() }
    }
}

impl Tab {
    /// Adds to `session` the tab that the server opened, and returns it.
    pub fn new(session: &mut Session, ev: Event) -> (r: Result<Tab, WebdriverError>)
        ensures
            final(session).id == old(session).id,
            match new_handle(reply_of(ev)) {
                Some(h) => {
                    &&& r is Ok
                    &&& r->Ok_0.id == h
                    &&& r->Ok_0.session_id == old(session).id
                    &&& final(session).tabs@ == old(session).tabs@.push(r->Ok_0)
                },
                None => r is Err && failure(reply_of(ev), r->Err_0) && final(session).tabs@ == old(session).tabs@,
            },
    {
        let ghost rep = reply_of(ev);
        match session.open_tab(ev) {
            Ok(i) => {
                assert(new_handle(rep) is Some);
                assert(i == session.tabs@.len() - 1);
                let tab = session.tabs[i].copy();
                assert(tab == session.tabs@.last());
                assert(session.tabs@ =~= session.tabs@.drop_last().push(session.tabs@.last()));
                Ok(tab)
            },
            Err(e) => Err(e),
        }
    }
}

/// Where the creation of a session stands.
#[derive(Debug, Clone, Copy, PartialEq, Eq)]
pub enum SetupStage {
    /// Waiting for the reply to the first request for a session.
    Connect,
    /// Waiting for the driver that was asked for to start.
    Launching,
    /// Waiting for the reply to the request made after the launch.
    Reconnect,
    /// Waiting for the list of open windows.
    Discover,
    /// Done.
    Finished,
}

/// The creation of a session, step by step.
#[derive(Debug)]
pub struct Setup {
    pub browser: Browser,
    pub platform: Platform,
    pub headless: bool,
    pub stage: SetupStage,
    /// The id that the server gave, once it gave one.
    pub session_id: String,
}

/// What to do next in the creation of a session.
#[derive(Debug)]
pub enum SetupStep {
    /// Send this request and hand its reply back.
    Send(Request),
    /// Start the driver program of this name, then hand back `Event::Launched`.
    Spawn(String),
    /// Creation is over, with this outcome.
    Finish(Result<Session, WebdriverError>),
}

/// The request that asks the server for a session.
pub open spec fn create_request(s: Setup, req: Request) -> bool {
    &&& req.method == Method::Post
    &&& req.path@ == "/session"@
    &&& req.body is Some
    &&& capabilities_for(req.body->Some_0, s.browser, s.platform, s.headless)
}

/// The outcome of a request for a session: on to discovery with the id
/// given, or over with the failure reported.
pub open spec fn created(pre: Setup, ev: Event, post: Setup, step: SetupStep) -> bool {
    let rep = reply_of(ev);
    let sid = member(value_of(rep->Ok_0), "sessionId"@);
    if rep is Ok && sid is Str {
        &&& post.stage is Discover
        &&& post.session_id == sid->Str_0
        &&& step is Send
        &&& bare_request(sid->Str_0@, step->Send_0, Method::Get, "/window/handles"@)
    } else {
        &&& post.stage is Finished
        &&& step is Finish
        &&& step->Finish_0 is Err
        &&& failure(rep, step->Finish_0->Err_0)
    }
}

/// One move of the creation of a session.
pub open spec fn setup_transition(pre: Setup, ev: Event, post: Setup, step: SetupStep) -> bool {
    &&& post.browser == pre.browser
    &&& post.platform == pre.platform
    &&& post.headless == pre.headless
    &&& match pre.stage {
        SetupStage::Connect => if ev is Unreachable {
            if can_launch(pre.platform) {
                post.stage is Launching && step is Spawn && step->Spawn_0@ == driver_name(pre.browser)
            } else {
                &&& post.stage is Finished
                &&& step is Finish
                &&& step->Finish_0 == Err::<Session, WebdriverError>(WebdriverError::FailedRequest)
            }
        } else {
            created(pre, ev, post, step)
        },
        SetupStage::Launching => post.stage is Reconnect && step is Send && create_request(pre, step->Send_0),
        SetupStage::Reconnect => created(pre, ev, post, step),
        SetupStage::Discover => {
            &&& post.stage is Finished
            &&& step is Finish
            &&& match handles_in(reply_of(ev)) {
                Some(found) => {
                    let s = step->Finish_0->Ok_0;
                    &&& step->Finish_0 is Ok
                    &&& s.id == pre.session_id
                    &&& tab_ids(s.tabs@) == merged(Seq::empty(), views(found))
                    &&& owned_by(s.tabs@, pre.session_id@)
                },
                None => step->Finish_0 is Err && failure(reply_of(ev), step->Finish_0->Err_0),
            }
        },
        SetupStage::Finished => false,
    }
}

/// When the first request for a session finds no server, exactly one driver
/// is launched and the request is made exactly once more; whatever comes of
/// that second request, no other launch follows.
pub proof fn lemma_single_fallback_launch(
    s0: Setup,
    ev0: Event,
    s1: Setup,
    step1: SetupStep,
    ev1: Event,
    s2: Setup,
    step2: SetupStep,
    ev2: Event,
    s3: Setup,
    step3: SetupStep,
)
    requires
        s0.stage is Connect,
        ev0 is Unreachable,
        can_launch(s0.platform),
        setup_transition(s0, ev0, s1, step1),
        setup_transition(s1, ev1, s2, step2),
        setup_transition(s2, ev2, s3, step3),
    ensures
        step1 is Spawn,
        step2 is Send && create_request(s0, step2->Send_0),
        !(step3 is Spawn),
        ev2 is Unreachable ==> step3 is Finish && step3->Finish_0 == Err::<Session, WebdriverError>(
            WebdriverError::FailedRequest,
        ),
{
}

/// A server that answers the first request for a session, even with a
/// protocol error, causes no launch.
pub proof fn lemma_answer_means_no_launch(s0: Setup, ev0: Event, s1: Setup, step1: SetupStep)
    requires
        s0.stage is Connect,
        !(ev0 is Unreachable),
        setup_transition(s0, ev0, s1, step1),
    ensures
        !(step1 is Spawn),
{
}

impl Setup {
    fn create(&self) -> (r: Request)
        ensures
            create_request(*self, r),
    {
        Request {
            method: Method::Post,
            path: "/session".to_owned(),
            body: Some(capabilities(self.browser, self.platform, self.headless)),
        }
    }

    /// The first step: the request for a session, or a failure at once where
    /// the platform is unknown.
    pub fn start(&mut self) -> (step: SetupStep)
        requires
            old(self).stage is Connect,
        ensures
            final(self).browser == old(self).browser,
            final(self).platform == old(self).platform,
            final(self).headless == old(self).headless,
            old(self).platform is Unknown ==> final(self).stage is Finished && step is Finish
                && step->Finish_0 == Err::<Session, WebdriverError>(WebdriverError::UnsupportedPlatform),
            !(old(self).platform is Unknown) ==> final(self).stage is Connect && step is Send
                && create_request(*old(self), step->Send_0),
    {
        match self.platform {
            Platform::Unknown => {
                self.stage = SetupStage::Finished;
                SetupStep::Finish(Err(WebdriverError::UnsupportedPlatform))
            },
            _ => SetupStep::Send(self.create()),
        }
    }

    fn after_create(&mut self, ev: Event) -> (step: SetupStep)
        ensures
            final(self).browser == old(self).browser,
            final(self).platform == old(self).platform,
            final(self).headless == old(self).headless,
            created(*old(self), ev, *final(self), step),
    {
        match read_member(reply(ev), "sessionId") {
            Ok(id) => {
                let req = bare(&id, Method::Get, "/window/handles");
                self.session_id = id;
                self.stage = SetupStage::Discover;
                SetupStep::Send(req)
            },
            Err(e) => {
                self.stage = SetupStage::Finished;
                SetupStep::Finish(Err(e))
            },
        }
    }

    /// Takes what came of the last step and says what to do next.
    pub fn advance(&mut self, ev: Event) -> (step: SetupStep)
        requires
            !(old(self).stage is Finished),
        ensures
            setup_transition(*old(self), ev, *final(self), step),
    {
        match self.stage {
            SetupStage::Connect => match ev {
                Event::Unreachable => if self.platform.can_launch() {
                    self.stage = SetupStage::Launching;
                    SetupStep::Spawn(self.browser.driver().to_owned())
                } else {
                    self.stage = SetupStage::Finished;
                    SetupStep::Finish(Err(WebdriverError::FailedRequest))
                },
                _ => self.after_create(ev),
            },
            SetupStage::Launching => {
                let req = self.create();
                self.stage = SetupStage::Reconnect;
                SetupStep::Send(req)
            },
            SetupStage::Reconnect => self.after_create(ev),
            SetupStage::Discover => {
                self.stage = SetupStage::Finished;
                match read_handles(reply(ev)) {
                    Ok(found) => {
                        let mut session = Session { id: self.session_id.clone(), tabs: Vec::new() };
                        assert(tab_ids(session.tabs@) =~= Seq::empty());
                        session.merge(&found);
                        assert(session.tabs@.subrange(0, session.tabs@.len() as int) =~= session.tabs@);
                        SetupStep::Finish(Ok(session))
                    },
                    Err(e) => SetupStep::Finish(Err(e)),
                }
            },
            SetupStage::Finished => SetupStep::Finish(Err(WebdriverError::InvalidResponse)),
        }
    }
}

} // verus!
