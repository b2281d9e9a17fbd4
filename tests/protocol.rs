use lw_webdriver::error::WebdriverError;
use lw_webdriver::json::{decode, encode, Json};
use lw_webdriver::protocol::{
    capabilities, read_close, read_element, read_handles, read_text, read_timeouts, read_unit,
    reply, timeouts_body, Browser, Event, Method, Platform, Request, Selector, Timeouts,
};

fn body(text: &str) -> Event {
    Event::Body(text.to_string())
}

fn members(v: &json::JsonValue) -> Vec<String> {
    v.entries().map(|(k, _)| k.to_string()).collect()
}

#[test]
fn capabilities_without_headless_have_no_vendor_options() {
    let text = encode(&capabilities(Browser::Firefox, Platform::Linux, false));
    let v = json::parse(&text).unwrap();
    let wanted = &v["capabilities"]["alwaysMatch"];
    assert_eq!(members(wanted), vec!["platformName".to_string(), "browserName".to_string()]);
    assert_eq!(wanted["platformName"].as_str(), Some("linux"));
    assert_eq!(wanted["browserName"].as_str(), Some("firefox"));
    assert!(!text.contains("moz:firefoxOptions"));
    assert!(!text.contains("goog:chromeOptions"));
}

#[test]
fn capabilities_headless_firefox() {
    let text = encode(&capabilities(Browser::Firefox, Platform::Linux, true));
    let v = json::parse(&text).unwrap();
    let wanted = &v["capabilities"]["alwaysMatch"];
    let args = &wanted["moz:firefoxOptions"]["args"];
    assert_eq!(args.len(), 1);
    assert_eq!(args[0].as_str(), Some("-headless"));
    assert!(!text.contains("goog:chromeOptions"));
}

#[test]
fn capabilities_headless_chrome() {
    let text = encode(&capabilities(Browser::Chrome, Platform::Windows, true));
    let v = json::parse(&text).unwrap();
    let wanted = &v["capabilities"]["alwaysMatch"];
    assert_eq!(wanted["platformName"].as_str(), Some("windows"));
    assert_eq!(wanted["browserName"].as_str(), Some("chrome"));
    let args = &wanted["goog:chromeOptions"]["args"];
    assert_eq!(args.len(), 1);
    assert_eq!(args[0].as_str(), Some("-headless"));
    assert!(!text.contains("moz:firefoxOptions"));
}

#[test]
fn null_value_is_success() {
    assert_eq!(read_unit(reply(body("{\"value\":null}"))), Ok(()));
}

#[test]
fn missing_value_reads_as_null() {
    assert_eq!(read_unit(reply(body("{}"))), Ok(()));
}

#[test]
fn non_json_is_invalid_response() {
    assert_eq!(read_unit(reply(body("<html>not json</html>"))), Err(WebdriverError::InvalidResponse));
    assert_eq!(read_text(reply(body("oops"))), Err(WebdriverError::InvalidResponse));
}

#[test]
fn transport_failure_is_failed_request() {
    assert_eq!(read_unit(reply(Event::Unreachable)), Err(WebdriverError::FailedRequest));
    assert_eq!(read_unit(reply(Event::Unreadable)), Err(WebdriverError::InvalidResponse));
}

#[test]
fn wire_error_is_mapped() {
    let r = read_unit(reply(body("{\"value\":{\"error\":\"no such window\",\"message\":\"gone\"}}")));
    assert_eq!(r, Err(WebdriverError::NoSuchWindow));
    let r = read_unit(reply(body("{\"value\":{\"error\":\"no such element\"}}")));
    assert_eq!(r, Err(WebdriverError::NoSuchElement));
}

#[test]
fn unexpected_shape_is_invalid_response() {
    assert_eq!(read_unit(reply(body("{\"value\":3}"))), Err(WebdriverError::InvalidResponse));
    assert_eq!(read_text(reply(body("{\"value\":null}"))), Err(WebdriverError::InvalidResponse));
}

#[test]
fn from_wire_names_every_known_code() {
    assert_eq!(WebdriverError::from_wire("timeout"), WebdriverError::Timeout);
    assert_eq!(WebdriverError::from_wire("javascript error"), WebdriverError::JavascriptError);
    assert_eq!(WebdriverError::from_wire("session not created"), WebdriverError::SessionNotCreated);
    assert_eq!(WebdriverError::from_wire("unsupported operation"), WebdriverError::UnsupportedOperation);
    assert_eq!(
        WebdriverError::from_wire("something new"),
        WebdriverError::Custom("something new".to_string())
    );
}

#[test]
fn text_reply_is_returned_verbatim() {
    assert_eq!(
        read_text(reply(body("{\"value\":\"http://example.com/\"}"))),
        Ok("http://example.com/".to_string())
    );
}

#[test]
fn close_accepts_any_value_without_error() {
    assert_eq!(read_close(reply(body("{\"value\":[\"a\",\"b\"]}"))), Ok(()));
    assert_eq!(read_close(reply(body("{\"value\":null}"))), Ok(()));
    assert_eq!(
        read_close(reply(body("{\"value\":{\"error\":\"no such window\"}}"))),
        Err(WebdriverError::NoSuchWindow)
    );
    assert_eq!(read_close(reply(body("]"))), Err(WebdriverError::InvalidResponse));
}

#[test]
fn element_reply_gives_reference() {
    let r = read_element(reply(body(
        "{\"value\":{\"element-6066-11e4-a52e-4f735466cecf\":\"e-17\"}}",
    )));
    assert_eq!(r, Ok(Some("e-17".to_string())));
    let r = read_element(reply(body("{\"value\":{\"error\":\"no such element\"}}")));
    assert_eq!(r, Ok(None));
    let r = read_element(reply(body("{\"value\":{\"error\":\"invalid selector\"}}")));
    assert_eq!(r, Err(WebdriverError::InvalidSelector));
}

#[test]
fn handles_in_either_shape() {
    let r = read_handles(reply(body("{\"value\":[\"w1\",\"w2\"]}")));
    assert_eq!(r, Ok(vec!["w1".to_string(), "w2".to_string()]));
    let r = read_handles(reply(body("{\"value\":{\"handles\":[\"w3\"]}}")));
    assert_eq!(r, Ok(vec!["w3".to_string()]));
    let r = read_handles(reply(body("{\"value\":[\"w1\",4]}")));
    assert_eq!(r, Err(WebdriverError::InvalidResponse));
}

#[test]
fn timeouts_reply_is_read() {
    let r = read_timeouts(reply(body("{\"value\":{\"script\":null,\"pageLoad\":30000,\"implicit\":5000}}")));
    assert_eq!(r, Ok(Timeouts { script: None, page_load: 30000, implicit: 5000 }));
    let r = read_timeouts(reply(body("{\"value\":{\"script\":100,\"pageLoad\":1,\"implicit\":0}}")));
    assert_eq!(r, Ok(Timeouts { script: Some(100), page_load: 1, implicit: 0 }));
    let r = read_timeouts(reply(body("{\"value\":{\"pageLoad\":1.5,\"implicit\":0}}")));
    assert_eq!(r, Err(WebdriverError::InvalidResponse));
}

#[test]
fn timeouts_body_omits_absent_script() {
    let t = Timeouts { script: None, page_load: 30000, implicit: 5000 };
    let v = json::parse(&encode(&timeouts_body(t))).unwrap();
    assert_eq!(members(&v), vec!["pageLoad".to_string(), "implicit".to_string()]);
    assert_eq!(v["pageLoad"].as_u64(), Some(30000));
    assert_eq!(v["implicit"].as_u64(), Some(5000));
}

#[test]
fn decode_reads_nested_values() {
    let j = decode("{\"a\":[1,true,\"x\"],\"b\":{\"c\":null}}").unwrap();
    assert_eq!(
        j,
        Json::Object(vec![
            (
                "a".to_string(),
                Json::List(vec![Json::Number(true, 1, 0), Json::Bool(true), Json::Str("x".to_string())])
            ),
            ("b".to_string(), Json::Object(vec![("c".to_string(), Json::Null)])),
        ])
    );
    assert_eq!(decode("{"), None);
}

#[test]
fn encode_writes_json_text() {
    let j = Json::Object(vec![("url".to_string(), Json::Str("http://example.com/".to_string()))]);
    assert_eq!(encode(&j), "{\"url\":\"http://example.com/\"}");
}

#[test]
fn request_url_and_body_text() {
    let r = Request {
        method: Method::Get,
        path: "/session/abc/url".to_string(),
        body: None,
    };
    assert_eq!(r.url(), "http://localhost:4444/session/abc/url");
    assert_eq!(r.body_text(), None);
    let r = Request { method: Method::Post, path: "/session".to_string(), body: Some(Json::Object(vec![])) };
    assert_eq!(r.body_text(), Some("{}".to_string()));
}

#[test]
fn selector_names() {
    assert_eq!(Selector::Css.to_string(), "css selector");
    assert_eq!(Selector::XPath.to_string(), "xpath");
    assert_eq!(Browser::Firefox.driver(), "geckodriver");
    assert_eq!(Browser::Chrome.driver(), "chromedriver");
}

#[test]
fn decode_keeps_long_strings_and_number_parts() {
    let long = "a string that is much longer than thirty bytes in all";
    let j = decode(&format!("{{\"value\":\"{}\"}}", long)).unwrap();
    assert_eq!(j, Json::Object(vec![("value".to_string(), Json::Str(long.to_string()))]));
    assert_eq!(decode("-12").unwrap(), Json::Number(false, 12, 0));
    assert_eq!(decode("1.5").unwrap(), Json::Number(true, 15, -1));
}
