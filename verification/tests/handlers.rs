use bitfun::webdriver::error::ErrorKind;
use bitfun::webdriver::handlers::actions::{perform_script, PerformActionsRequest};
use bitfun::webdriver::handlers::cookie::{
    add_script, delete_all_script, delete_script, get_all_script, get_reply, get_script, AddCookieRequest, Cookie,
};
use bitfun::webdriver::handlers::element::{
    element_reply, element_script, find_from_element_reply, find_reply, get_active_script, ElementCommand,
    ElementValueRequest,
};
use bitfun::webdriver::handlers::navigation::{
    back_script, forward_script, get_source_script, get_title_script, navigate_script, refresh_script,
    url_read_failed, UrlRequest,
};
use bitfun::webdriver::handlers::session::{delete_reply, initial_window_for_session, new_session_reply, NewSessionRequest};
use bitfun::webdriver::handlers::shadow::{
    find_element_in_shadow_reply, find_element_in_shadow_script, find_elements_in_shadow_script,
    get_shadow_root_reply, get_shadow_root_script, FindShadowRequest,
};
use bitfun::webdriver::handlers::{status_reply, Reply, ScriptArg, ScriptCall};
use bitfun::webdriver::error::WebDriverError;
use serde_json::Value;

fn parse(text: &str) -> Value {
    serde_json::from_str(text).unwrap()
}

fn texts(call: &ScriptCall) -> Vec<String> {
    call.args
        .iter()
        .map(|a| match a {
            ScriptArg::Text(t) => t.clone(),
            _ => panic!("expected a string argument"),
        })
        .collect()
}

#[test]
fn cookie_scripts_and_replies() {
    let c = get_all_script();
    assert_eq!(c.script, "() => window.__bitfunWd.getAllCookies()");
    assert!(c.args.is_empty());
    let c = get_script("sid".to_string());
    assert_eq!(c.script, "(name) => window.__bitfunWd.getCookie(name)");
    assert_eq!(texts(&c), vec!["sid"]);
    let c = delete_script("sid".to_string());
    assert_eq!(c.script, "(name) => window.__bitfunWd.deleteCookie(name)");
    assert_eq!(texts(&c), vec!["sid"]);
    assert_eq!(delete_all_script().script, "() => window.__bitfunWd.deleteAllCookies()");
    let cookie = Cookie {
        name: "n".into(),
        value: "v".into(),
        path: None,
        domain: None,
        secure: false,
        http_only: true,
        expiry: Some(9),
        same_site: None,
    };
    let c = add_script(AddCookieRequest { cookie });
    assert_eq!(c.script, "(cookie) => window.__bitfunWd.addCookie(cookie)");
    match &c.args[..] {
        [ScriptArg::Cookie(k)] => assert_eq!((k.name.as_str(), k.expiry, k.http_only), ("n", Some(9), true)),
        _ => panic!("expected the cookie"),
    }
    match get_reply("sid", Some(parse("{\"name\": \"sid\"}"))) {
        Ok(Reply::Value(Some(v))) => assert_eq!(v, parse("{\"name\": \"sid\"}")),
        _ => panic!("expected the cookie value"),
    }
    let e = get_reply("sid", Some(Value::Null)).unwrap_err();
    assert_eq!(e.kind, ErrorKind::NoSuchCookie);
    let e = get_reply("sid", None).unwrap_err();
    assert_eq!((e.kind, e.message.as_str()), (ErrorKind::NoSuchCookie, "Cookie 'sid' not found"));
}

#[test]
fn find_replies_take_the_first_element() {
    match find_reply(vec![Value::from("e1"), Value::from("e2")]) {
        Ok(Reply::Value(Some(v))) => assert_eq!(v, Value::from("e1")),
        _ => panic!("expected the first element"),
    }
    let e = find_reply(Vec::new()).unwrap_err();
    assert_eq!((e.kind, e.message.as_str()), (ErrorKind::NoSuchElement, "No element matched the selector"));
    let e = find_from_element_reply(Vec::new()).unwrap_err();
    assert_eq!(e.message, "No child element matched the selector");
    assert_eq!(get_active_script().script, "() => document.activeElement");
}

#[test]
fn element_commands() {
    let c = element_script(&ElementCommand::GetAttribute("href".to_string()), "el-1".to_string());
    assert_eq!(
        c.script,
        "(id, name) => { const el = window.__bitfunWd.getElement(id); return el ? el.getAttribute(name) : null; }"
    );
    assert_eq!(texts(&c), vec!["el-1", "href"]);
    let c = element_script(&ElementCommand::IsEnabled, "el-2".to_string());
    assert_eq!(c.script, "(id) => { const el = window.__bitfunWd.getElement(id); return !!el && !el.disabled; }");
    assert_eq!(texts(&c), vec!["el-2"]);
    let c = element_script(&ElementCommand::SendKeys("hi".to_string()), "el-3".to_string());
    assert_eq!(texts(&c), vec!["el-3", "hi"]);
    assert!(c.script.contains("setElementText(el, text)"));
    assert!(matches!(element_reply(&ElementCommand::Click, Some(Value::Null)), Reply::Null));
    assert!(matches!(element_reply(&ElementCommand::GetText, None), Reply::Value(None)));
    match element_reply(&ElementCommand::GetName, Some(Value::from("div"))) {
        Reply::Value(Some(v)) => assert_eq!(v, Value::from("div")),
        _ => panic!("expected the value"),
    }
}

#[test]
fn send_keys_text_choice() {
    let r = ElementValueRequest { text: Some("abc".into()), value: Some(vec!["x".into()]) };
    assert_eq!(r.send_keys_text(), "abc");
    let r = ElementValueRequest { text: None, value: Some(vec!["a".into(), "b".into(), "cd".into()]) };
    assert_eq!(r.send_keys_text(), "abcd");
    let r = ElementValueRequest { text: None, value: None };
    assert_eq!(r.send_keys_text(), "");
}

#[test]
fn navigation_scripts() {
    let c = navigate_script(UrlRequest { url: "https://example.com".into() });
    assert_eq!(c.script, "(url) => { window.location.href = url; return null; }");
    assert_eq!(texts(&c), vec!["https://example.com"]);
    assert_eq!(back_script().script, "() => { window.history.back(); return null; }");
    assert_eq!(forward_script().script, "() => { window.history.forward(); return null; }");
    assert_eq!(refresh_script().script, "() => { window.location.reload(); return null; }");
    assert_eq!(get_title_script().script, "() => document.title || ''");
    assert_eq!(get_source_script().script, "() => document.documentElement ? document.documentElement.outerHTML : ''");
    let e = url_read_failed("gone");
    assert_eq!((e.kind, e.message.as_str()), (ErrorKind::UnknownError, "Failed to read URL: gone"));
}

#[test]
fn sessions() {
    assert_eq!(initial_window_for_session(Some("main".into()), "main").unwrap(), "main");
    let e = initial_window_for_session(None, "main").unwrap_err();
    assert_eq!((e.kind, e.message.as_str()), (ErrorKind::SessionNotCreated, "Webview not available: main"));
    assert!(matches!(delete_reply(true, "s1"), Ok(Reply::Null)));
    let e = delete_reply(false, "s1").unwrap_err();
    assert_eq!(e.kind, ErrorKind::InvalidSessionId);
    assert!(e.message.contains("s1"));
}

#[test]
fn shadow_commands() {
    let c = get_shadow_root_script("el".into());
    assert_eq!(c.script, "(elementId) => window.__bitfunWd.getShadowRoot(elementId)");
    assert_eq!(texts(&c), vec!["el"]);
    let req = FindShadowRequest { using: "css selector".into(), value: "p".into() };
    let c = find_element_in_shadow_script("sh".into(), req);
    assert_eq!(texts(&c), vec!["sh", "css selector", "p"]);
    assert!(c.script.contains("return results.length ? results[0] : null;"));
    let req = FindShadowRequest { using: "css selector".into(), value: "p".into() };
    let c = find_elements_in_shadow_script("sh".into(), req);
    assert_eq!(c.script, "(shadowId, using, value) => window.__bitfunWd.findElementsFromShadow(shadowId, using, value)");
    let e = get_shadow_root_reply(Ok(None)).unwrap_err();
    assert_eq!((e.kind, e.message.as_str()), (ErrorKind::NoSuchShadowRoot, "Element does not have a shadow root"));
    let failed: Result<Option<Value>, WebDriverError> = Err(url_read_failed("x"));
    assert_eq!(get_shadow_root_reply(failed).unwrap_err().kind, ErrorKind::NoSuchShadowRoot);
    assert!(matches!(get_shadow_root_reply(Ok(Some(Value::from("root")))), Ok(Reply::Value(Some(_)))));
    assert!(get_shadow_root_reply(Ok(Some(Value::Null))).is_err());
    assert!(find_element_in_shadow_reply(Some(Value::Null)).is_err());
    let e = find_element_in_shadow_reply(None).unwrap_err();
    assert_eq!((e.kind, e.message.as_str()), (ErrorKind::NoSuchElement, "No shadow child element matched the selector"));
}

#[test]
fn perform_actions_script() {
    let c = perform_script(PerformActionsRequest { actions: vec![parse("{\"type\": \"none\"}")] });
    assert_eq!(c.script, "(actions) => { window.__bitfunWd.performActions(actions); return null; }");
    match &c.args[..] {
        [ScriptArg::List(items)] => assert_eq!(items.len(), 1),
        _ => panic!("expected the action list"),
    }
}

#[test]
fn new_session_replies_and_error_codes() {
    let r = new_session_reply("s1".into(), "main".into(), NewSessionRequest { capabilities: None });
    assert_eq!((r.session_id.as_str(), r.browser_name.as_str(), r.webview_label.as_str()), ("s1", "bitfun", "main"));
    assert!(r.accept_insecure_certs && r.set_window_rect && r.takes_screenshot && r.embedded);
    assert!(r.always_match.is_none());
    assert_eq!((ErrorKind::NoSuchCookie.http_status(), ErrorKind::NoSuchCookie.error_code()), (404, "no such cookie"));
    assert_eq!((ErrorKind::Timeout.http_status(), ErrorKind::Timeout.error_code()), (500, "timeout"));
    assert_eq!(ErrorKind::InvalidSessionId.error_code(), "invalid session id");
}

#[test]
fn status_replies() {
    let r = status_reply(true, "0.3.1".to_string());
    assert!(r.ready);
    assert_eq!(r.message, "BitFun embedded WebDriver is ready");
    assert_eq!((r.build_version.as_str(), r.build_name.as_str()), ("0.3.1", "bitfun-embedded-webdriver"));
    assert!(!status_reply(false, String::new()).ready);
}
