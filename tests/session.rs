use lw_webdriver::error::WebdriverError;
use lw_webdriver::json::encode;
use lw_webdriver::protocol::{Browser, Event, Method, Platform, Selector, Timeouts};
use lw_webdriver::session::{Session, SetupStep};
use lw_webdriver::tab::{Payload, Step, Tab};

fn body(text: &str) -> Event {
    Event::Body(text.to_string())
}

fn tab(id: &str) -> Tab {
    Tab::new_from(id.to_string(), "s1".to_string())
}

fn session_with(ids: &[&str]) -> Session {
    let mut setup = Session::new(Browser::Firefox, Platform::Linux, false);
    setup.start();
    setup.advance(body("{\"value\":{\"sessionId\":\"s1\"}}"));
    let list: Vec<String> = ids.iter().map(|i| format!("\"{}\"", i)).collect();
    match setup.advance(body(&format!("{{\"value\":[{}]}}", list.join(",")))) {
        SetupStep::Finish(Ok(s)) => s,
        other => panic!("unexpected step {:?}", other),
    }
}

#[test]
fn selecting_a_selected_tab_sends_one_request() {
    let t = tab("w1");
    for _ in 0..2 {
        let mut ex = t.select();
        let probe = ex.probe();
        assert_eq!(probe.method, Method::Get);
        assert_eq!(probe.path, "/session/s1/window");
        assert_eq!(ex.advance(body("{\"value\":\"w1\"}")), Step::Finish(Ok(Payload::Done)));
    }
}

#[test]
fn selecting_another_tab_switches() {
    let t = tab("w2");
    let mut ex = t.select();
    match ex.advance(body("{\"value\":\"w1\"}")) {
        Step::Send(r) => {
            assert_eq!(r.method, Method::Post);
            assert_eq!(r.path, "/session/s1/window");
            assert_eq!(r.body_text(), Some("{\"handle\":\"w2\"}".to_string()));
        },
        other => panic!("unexpected step {:?}", other),
    }
    assert_eq!(ex.advance(body("{\"value\":null}")), Step::Finish(Ok(Payload::Done)));
}

#[test]
fn failed_switch_ends_the_command() {
    let t = tab("w2");
    let mut ex = t.navigate("http://example.com/");
    ex.advance(Event::Unreachable);
    let step = ex.advance(body("{\"value\":{\"error\":\"no such window\"}}"));
    assert_eq!(step, Step::Finish(Err(WebdriverError::NoSuchWindow)));
}

#[test]
fn tabs_equal_by_id_only() {
    let a = Tab::new_from("w1".to_string(), "s1".to_string());
    let b = Tab::new_from("w1".to_string(), "s2".to_string());
    let c = Tab::new_from("w2".to_string(), "s1".to_string());
    assert!(a == b);
    assert!(a != c);
}

#[test]
fn find_downgrades_no_such_element() {
    let t = tab("w1");
    let mut ex = t.find(Selector::Css, "#missing");
    match ex.advance(body("{\"value\":\"w1\"}")) {
        Step::Send(r) => {
            assert_eq!(r.path, "/session/s1/element");
            assert_eq!(r.body_text(), Some("{\"using\":\"css selector\",\"value\":\"#missing\"}".to_string()));
        },
        other => panic!("unexpected step {:?}", other),
    }
    let step = ex.advance(body("{\"value\":{\"error\":\"no such element\"}}"));
    assert_eq!(step, Step::Finish(Ok(Payload::Element(None))));
}

#[test]
fn navigate_reports_no_such_element() {
    let t = tab("w1");
    let mut ex = t.navigate("http://example.com/");
    match ex.advance(body("{\"value\":\"w1\"}")) {
        Step::Send(r) => {
            assert_eq!(r.method, Method::Post);
            assert_eq!(r.path, "/session/s1/url");
            assert_eq!(r.body_text(), Some("{\"url\":\"http://example.com/\"}".to_string()));
        },
        other => panic!("unexpected step {:?}", other),
    }
    let step = ex.advance(body("{\"value\":{\"error\":\"no such element\"}}"));
    assert_eq!(step, Step::Finish(Err(WebdriverError::NoSuchElement)));
}

#[test]
fn get_title_returns_text() {
    let t = tab("w1");
    let mut ex = t.get_title();
    match ex.advance(body("{\"value\":\"w1\"}")) {
        Step::Send(r) => {
            assert_eq!(r.method, Method::Get);
            assert_eq!(r.path, "/session/s1/title");
            assert_eq!(r.body, None);
        },
        other => panic!("unexpected step {:?}", other),
    }
    let step = ex.advance(body("{\"value\":\"Example Domain\"}"));
    assert_eq!(step, Step::Finish(Ok(Payload::Text("Example Domain".to_string()))));
}

#[test]
fn back_forward_refresh_and_close_requests() {
    let t = tab("w1");
    for (mut ex, method, path) in vec![
        (t.back(), Method::Post, "/session/s1/back"),
        (t.forward(), Method::Post, "/session/s1/forward"),
        (t.refresh(), Method::Post, "/session/s1/refresh"),
        (t.close(), Method::Delete, "/session/s1/window"),
        (t.get_url(), Method::Get, "/session/s1/url"),
    ] {
        match ex.advance(body("{\"value\":\"w1\"}")) {
            Step::Send(r) => {
                assert_eq!(r.method, method);
                assert_eq!(r.path, path);
            },
            other => panic!("unexpected step {:?}", other),
        }
    }
}

#[test]
fn execute_script_sends_args() {
    let t = tab("w1");
    let mut ex = t.execute_script("return 1;", vec!["a".to_string(), "b".to_string()]);
    match ex.advance(body("{\"value\":\"w1\"}")) {
        Step::Send(r) => {
            assert_eq!(r.path, "/session/s1/execute/sync");
            assert_eq!(r.body_text(), Some("{\"script\":\"return 1;\",\"args\":[\"a\",\"b\"]}".to_string()));
        },
        other => panic!("unexpected step {:?}", other),
    }
    assert_eq!(ex.advance(body("{\"value\":null}")), Step::Finish(Ok(Payload::Done)));
}

#[test]
fn discovery_twice_keeps_count() {
    let mut s = session_with(&["w1"]);
    assert_eq!(s.tabs.len(), 1);
    let listed = "{\"value\":[\"w1\",\"w2\",\"w2\",\"w3\"]}";
    s.update_tabs(body(listed)).unwrap();
    assert_eq!(s.tabs.len(), 3);
    s.update_tabs(body(listed)).unwrap();
    assert_eq!(s.tabs.len(), 3);
    let ids: Vec<&str> = s.tabs.iter().map(|t| t.id.as_str()).collect();
    assert_eq!(ids, vec!["w1", "w2", "w3"]);
    assert_eq!(s.tabs[2].get_session_id(), "s1");
    assert_eq!(s.update_tabs_request().path, "/session/s1/window/handles");
}

#[test]
fn failed_discovery_keeps_tabs() {
    let mut s = session_with(&["w1", "w2"]);
    assert_eq!(s.update_tabs(Event::Unreachable), Err(WebdriverError::FailedRequest));
    assert_eq!(s.tabs.len(), 2);
}

#[test]
fn unreachable_server_launches_driver_once() {
    let mut setup = Session::new(Browser::Firefox, Platform::Linux, true);
    assert!(matches!(setup.start(), SetupStep::Send(_)));
    match setup.advance(Event::Unreachable) {
        SetupStep::Spawn(name) => assert_eq!(name, "geckodriver"),
        other => panic!("unexpected step {:?}", other),
    }
    match setup.advance(Event::Launched) {
        SetupStep::Send(r) => {
            assert_eq!(r.method, Method::Post);
            assert_eq!(r.path, "/session");
        },
        other => panic!("unexpected step {:?}", other),
    }
    assert!(matches!(setup.advance(Event::Unreachable), SetupStep::Finish(Err(WebdriverError::FailedRequest))));
}

#[test]
fn protocol_error_launches_nothing() {
    let mut setup = Session::new(Browser::Chrome, Platform::Linux, false);
    setup.start();
    let step = setup.advance(body("{\"value\":{\"error\":\"session not created\"}}"));
    assert!(matches!(step, SetupStep::Finish(Err(WebdriverError::SessionNotCreated))));
}

#[test]
fn no_launch_on_windows() {
    let mut setup = Session::new(Browser::Chrome, Platform::Windows, false);
    setup.start();
    assert!(matches!(setup.advance(Event::Unreachable), SetupStep::Finish(Err(WebdriverError::FailedRequest))));
}

#[test]
fn unknown_platform_fails_before_any_request() {
    let mut setup = Session::new(Browser::Firefox, Platform::Unknown, false);
    assert!(matches!(setup.start(), SetupStep::Finish(Err(WebdriverError::UnsupportedPlatform))));
}

#[test]
fn headless_firefox_session_then_open_tab() {
    let mut setup = Session::new(Browser::Firefox, Platform::Linux, true);
    match setup.start() {
        SetupStep::Send(r) => assert!(r.body_text().unwrap().contains("\"moz:firefoxOptions\":{\"args\":[\"-headless\"]}")),
        other => panic!("unexpected step {:?}", other),
    }
    match setup.advance(body("{\"value\":{\"sessionId\":\"abc123\"}}")) {
        SetupStep::Send(r) => {
            assert_eq!(r.method, Method::Get);
            assert_eq!(r.path, "/session/abc123/window/handles");
        },
        other => panic!("unexpected step {:?}", other),
    }
    let mut session = match setup.advance(body("{\"value\":[]}")) {
        SetupStep::Finish(Ok(s)) => s,
        other => panic!("unexpected step {:?}", other),
    };
    assert_eq!(session.get_id(), "abc123");
    assert_eq!(session.tabs.len(), 0);
    let r = session.open_tab_request();
    assert_eq!(r.path, "/session/abc123/window/new");
    assert_eq!(session.open_tab(body("{\"value\":{\"handle\":\"tab1\",\"type\":\"tab\"}}")), Ok(0));
    assert_eq!(session.tabs.len(), 1);
    assert_eq!(session.tabs[0].get_id(), "tab1");
    let t = Tab::new(&mut session, body("{\"value\":{\"handle\":\"tab2\"}}")).unwrap();
    assert_eq!(t.get_id(), "tab2");
    assert_eq!(session.tabs.len(), 2);
}

#[test]
fn timeouts_round_trip() {
    let mut session = session_with(&[]);
    let set = Timeouts { script: None, page_load: 30000, implicit: 5000 };
    let r = session.set_timeouts_request(set);
    assert_eq!(r.path, "/session/s1/timeouts");
    let sent = encode(r.body.as_ref().unwrap());
    assert_eq!(session.set_timeouts(body("{\"value\":null}")), Ok(()));
    assert_eq!(session.get_timeouts_request().method, Method::Get);
    let echoed = format!("{{\"value\":{}}}", sent);
    assert_eq!(session.get_timeouts(body(&echoed)), Ok(set));
}
