use bitfun::text::u64_to_decimal;
use bitfun::webdriver::bridge::{
    bridge_helper_script, bridge_response_outcome, build_bridge_eval_script, remove_pending_request,
    route_bridge_response, script_timeout_ms, serialize_frame_context, settle_script, webview_not_found,
    pending_table_unavailable, BridgeError, BridgeResponse, FrameId, PendingRequests, ScriptEvent,
};
use bitfun::webdriver::error::ErrorKind;
use serde_json::Value;

fn response(id: &str, ok: bool, value: Option<Value>, error: Option<BridgeError>) -> BridgeResponse<Value> {
    BridgeResponse { request_id: id.to_string(), ok, value, error }
}

#[test]
fn pending_requests_insert_take_and_replace() {
    let mut pending: PendingRequests<u32> = PendingRequests::new();
    assert_eq!(pending.len(), 0);
    assert_eq!(pending.insert("a".to_string(), 1), None);
    assert_eq!(pending.insert("b".to_string(), 2), None);
    assert_eq!(pending.insert("a".to_string(), 3), Some(1));
    assert_eq!(pending.len(), 2);
    assert_eq!(pending.take("a"), Some(3));
    assert_eq!(pending.take("a"), None);
    remove_pending_request(&mut pending, "b");
    assert_eq!(pending.take("b"), None);
    assert_eq!(pending.len(), 0);
}

#[test]
fn answers_reach_the_waiting_party_once() {
    let mut pending: PendingRequests<&str> = PendingRequests::new();
    pending.insert("req-1".to_string(), "waiter");
    let routed = route_bridge_response(&mut pending, response("req-1", true, Some(Value::from(5)), None));
    let (sender, delivered) = routed.unwrap();
    assert_eq!(sender, "waiter");
    assert_eq!(delivered.value, Some(Value::from(5)));
    assert!(route_bridge_response(&mut pending, response("req-1", true, None, None)).is_none());
    assert!(route_bridge_response(&mut pending, response("other", true, None, None)).is_none());
}

#[test]
fn timeouts_have_a_floor() {
    assert_eq!(script_timeout_ms(0), 5000);
    assert_eq!(script_timeout_ms(4999), 5000);
    assert_eq!(script_timeout_ms(5000), 5000);
    assert_eq!(script_timeout_ms(30000), 30000);
}

#[test]
fn answers_become_results() {
    assert_eq!(bridge_response_outcome(response("r", true, Some(Value::from("x")), None)).unwrap(), Some(Value::from("x")));
    assert_eq!(bridge_response_outcome(response("r", true, None, None)).unwrap(), None);
    let e = bridge_response_outcome(response(
        "r",
        false,
        None,
        Some(BridgeError { message: Some("boom".to_string()), stack: Some("at x".to_string()) }),
    ))
    .unwrap_err();
    assert_eq!(e.kind, ErrorKind::JavascriptError);
    assert_eq!(e.message, "boom");
    assert_eq!(e.stacktrace.as_deref(), Some("at x"));
    let e = bridge_response_outcome(response("r", false, None, Some(BridgeError { message: None, stack: None }))).unwrap_err();
    assert_eq!(e.message, "Unknown JavaScript error");
    let e = bridge_response_outcome(response("r", false, Some(Value::from(1)), None)).unwrap_err();
    assert_eq!(e.message, "Unknown JavaScript error");
    assert!(e.stacktrace.is_none());
}

#[test]
fn settling_scripts() {
    let mut pending: PendingRequests<u8> = PendingRequests::new();
    pending.insert("r1".to_string(), 1);
    pending.insert("r2".to_string(), 2);
    let e = settle_script::<u8, Value>(&mut pending, "r1", 7000, ScriptEvent::TimedOut).unwrap_err();
    assert_eq!(e.kind, ErrorKind::Timeout);
    assert_eq!(e.message, "Script timed out after 7000ms");
    assert_eq!(pending.len(), 1);
    let e = settle_script::<u8, Value>(&mut pending, "r2", 5000, ScriptEvent::EvalFailed("no webview".to_string())).unwrap_err();
    assert_eq!(e.kind, ErrorKind::JavascriptError);
    assert_eq!(e.message, "Failed to evaluate script: no webview");
    assert_eq!(pending.len(), 0);
    pending.insert("r3".to_string(), 3);
    let e = settle_script::<u8, Value>(&mut pending, "r3", 5000, ScriptEvent::ChannelClosed).unwrap_err();
    assert_eq!(e.kind, ErrorKind::UnknownError);
    assert_eq!(e.message, "Bridge response channel closed unexpectedly");
    assert_eq!(pending.len(), 1);
    let ok = settle_script(&mut pending, "r3", 5000, ScriptEvent::Answered(response("r3", true, Some(Value::Bool(true)), None)));
    assert_eq!(ok.unwrap(), Some(Value::Bool(true)));
    let e = webview_not_found("main");
    assert_eq!((e.kind, e.message.as_str()), (ErrorKind::NoSuchWindow, "Webview not found: main"));
    let e = pending_table_unavailable();
    assert_eq!((e.kind, e.message.as_str()), (ErrorKind::UnknownError, "Failed to lock pending request map"));
}

#[test]
fn frame_context_json() {
    assert_eq!(serialize_frame_context(&Vec::new()), "[]");
    let frames = vec![FrameId::Index(0), FrameId::Element("el \"1\"".to_string()), FrameId::Index(12)];
    assert_eq!(
        serialize_frame_context(&frames),
        "[{\"kind\":\"index\",\"value\":0},{\"kind\":\"element\",\"value\":\"el \\\"1\\\"\"},{\"kind\":\"index\",\"value\":12}]"
    );
    assert_eq!(u64_to_decimal(12), "12");
}

#[test]
fn helper_script_shape() {
    let helper = bridge_helper_script();
    assert!(helper.starts_with("\nif (!window.__bitfunWd) {\n  window.__bitfunWd = (() => {\n"));
    assert!(helper.ends_with("      run\n    };\n  })();\n}\n"));
    assert!(helper.contains("const EVENT_NAME = \"bitfun_webdriver_result\";"));
    assert!(helper.contains("const ELEMENT_KEY = \"element-6066-11e4-a52e-4f735466cecf\";"));
}

#[test]
fn eval_script_assembly() {
    let frames = vec![FrameId::Index(2)];
    let script = build_bridge_eval_script("req-\"7\"", "() => 1", &[Value::from("a"), Value::from(3)], true, &frames);
    let helper = bridge_helper_script();
    let expected = format!(
        "\n(() => {{\n  {}\n  window.__bitfunWd.run(\"req-\\\"7\\\"\", \"() => 1\", [\"a\",3], true, [{{\"kind\":\"index\",\"value\":2}}]);\n}})();\n",
        helper
    );
    assert_eq!(script, expected);
    let script = build_bridge_eval_script("r", "s", &[], false, &Vec::new());
    assert!(script.ends_with("  window.__bitfunWd.run(\"r\", \"s\", [], false, []);\n})();\n"));
    let frames = vec![FrameId::Index(0)];
    let script = build_bridge_eval_script("r1", "() => \"hi\"", &[Value::from(1), Value::from("a")], false, &frames);
    let expected = String::from("\n(() => {\n  ")
        + &bridge_helper_script()
        + "\n  window.__bitfunWd.run(\"r1\", \"() => \\\"hi\\\"\", [1,\"a\"], false, [{\"kind\":\"index\",\"value\":0}]);\n})();\n";
    assert_eq!(script, expected);
}

#[test]
fn string_literals_escape_controls() {
    let frames = vec![FrameId::Element("a\u{1}b\n\t\\\u{8}\u{c}\r\u{1f}é".to_string())];
    assert_eq!(
        serialize_frame_context(&frames),
        "[{\"kind\":\"element\",\"value\":\"a\\u0001b\\n\\t\\\\\\b\\f\\r\\u001fé\"}]"
    );
}
