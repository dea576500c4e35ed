use apex_log_viewer::mcp::handlers::{
    handle_request, handle_tools_call, plan_tools_call, route, sync_response, tool_response,
    tool_result, LogsSyncProvider, Route,
};
use apex_log_viewer::mcp::protocol::{Request, Response};
use apex_log_viewer::mcp::tools::list_tools;
use apex_log_viewer::output::{ErrorOutput, OrgSummary, SyncOutput};
use serde_json::Value;
use std::cell::RefCell;

struct FakeLogsSync;

impl LogsSyncProvider for FakeLogsSync {
    fn logs_sync(&self, _limit: Option<u32>, _target: Option<String>) -> Result<SyncOutput, ErrorOutput> {
        Ok(sample_output())
    }
}

fn sample_output() -> SyncOutput {
    SyncOutput {
        ok: true,
        org: OrgSummary {
            username: Some("user@example.com".to_string()),
            instance_url: "https://example.my.salesforce.com".to_string(),
        },
        api_version: "64.0".to_string(),
        limit: 1,
        saved_dir: "apexlogs".to_string(),
        logs: vec![],
        saved: vec![],
        skipped: vec![],
        errors: vec![],
    }
}

fn parse(text: &str) -> Value {
    serde_json::from_str(text).expect("json")
}

#[test]
fn tools_list_includes_apex_logs_sync() {
    let req = Request {
        jsonrpc: Some("2.0".to_string()),
        id: Some(Value::from(1)),
        method: "tools/list".to_string(),
        params: None,
    };
    let res = handle_request(req, &FakeLogsSync).expect("response");
    let value = res.to_value();
    assert_eq!(value["result"]["tools"][0]["name"], "apex_logs_sync");
}

#[test]
fn tools_call_returns_sync_output_text() {
    let req = Request {
        jsonrpc: Some("2.0".to_string()),
        id: Some(Value::from(2)),
        method: "tools/call".to_string(),
        params: Some(parse(r#"{ "name": "apex_logs_sync", "arguments": { "limit": 1 } }"#)),
    };
    let res = handle_request(req, &FakeLogsSync).expect("response");
    let value = res.to_value();
    assert_eq!(value["result"]["isError"], false);
    let text = value["result"]["content"][0]["text"].as_str().expect("text");
    let payload: serde_json::Value = serde_json::from_str(text).expect("json payload");
    assert_eq!(payload["ok"], true);
}

/// A provider that fails and keeps what it was asked.
struct Recorder {
    calls: RefCell<Vec<(Option<u32>, Option<String>)>>,
}

impl Recorder {
    fn new() -> Recorder {
        Recorder { calls: RefCell::new(Vec::new()) }
    }
}

impl LogsSyncProvider for Recorder {
    fn logs_sync(&self, limit: Option<u32>, target: Option<String>) -> Result<SyncOutput, ErrorOutput> {
        self.calls.borrow_mut().push((limit, target));
        Err(ErrorOutput {
            ok: false,
            error_code: "TEST".to_string(),
            message: "test".to_string(),
            details: None,
        })
    }
}

fn call(id: Option<Value>, method: &str, params: Option<&str>) -> Request {
    Request {
        jsonrpc: Some("2.0".to_string()),
        id,
        method: method.to_string(),
        params: params.map(parse),
    }
}

fn error_of(response: &Response) -> (i64, String) {
    let error = response.error.as_ref().expect("error");
    assert!(response.result.is_none());
    (error.code, error.message.clone())
}

#[test]
fn tools_list_is_the_whole_descriptor() {
    let expected = parse(
        r#"{
          "tools": [{
            "name": "apex_logs_sync",
            "title": "Sync Apex Logs",
            "description": "Sync Apex logs to the local apexlogs directory.",
            "inputSchema": {
              "type": "object",
              "properties": {
                "limit": {"type": "number", "description": "Max logs to fetch (1-200).", "minimum": 1, "maximum": 200},
                "target": {"type": "string", "description": "Org username or alias."}
              }
            }
          }],
          "nextCursor": null
        }"#,
    );
    assert_eq!(list_tools(), expected);
}

#[test]
fn initialize_echoes_the_version_of_the_request() {
    let res = handle_request(call(Some(Value::from("a")), "initialize", None), &FakeLogsSync)
        .expect("response");
    assert_eq!(
        res.to_value(),
        parse(
            r#"{"jsonrpc":"2.0","id":"a","result":{
              "protocolVersion":"2.0",
              "capabilities":{"tools":{"listChanged":false}},
              "serverInfo":{"name":"apex-log-viewer-mcp","version":"0.1.0"}}}"#
        )
    );
    let bare = Request { jsonrpc: None, id: Some(Value::from(1)), method: "initialize".to_string(), params: None };
    let res = handle_request(bare, &FakeLogsSync).expect("response");
    assert_eq!(res.to_value()["result"]["protocolVersion"], "2024-11-05");
}

#[test]
fn unknown_method_is_not_found() {
    let res = handle_request(call(Some(Value::from(3)), "resources/list", None), &FakeLogsSync)
        .expect("response");
    assert_eq!(error_of(&res), (-32601, "Method not found".to_string()));
    assert_eq!(
        res.to_value(),
        parse(r#"{"jsonrpc":"2.0","id":3,"error":{"code":-32601,"message":"Method not found"}}"#)
    );
}

#[test]
fn notification_gets_no_response_for_any_method() {
    let recorder = Recorder::new();
    for method in ["initialize", "tools/list", "tools/call", "nothing/known", ""] {
        assert!(handle_request(call(None, method, None), &recorder).is_none());
        let good = call(None, method, Some(r#"{"name":"apex_logs_sync","arguments":{"limit":1}}"#));
        assert!(handle_request(good, &recorder).is_none());
        let bad = call(None, method, Some(r#"{"name":"apex_logs_sync","arguments":{"limit":"x"}}"#));
        assert!(handle_request(bad, &recorder).is_none());
    }
    assert!(recorder.calls.borrow().is_empty());
}

#[test]
fn tools_call_with_a_limit_that_is_no_number_is_refused_before_the_sync() {
    let recorder = Recorder::new();
    for limit in [r#""ten""#, "null", "true", "1.5", "-1", "[1]", "{}", "18446744073709551616"] {
        let params = format!(r#"{{"name":"apex_logs_sync","arguments":{{"limit":{limit}}}}}"#);
        let res = handle_request(call(Some(Value::from(9)), "tools/call", Some(&params)), &recorder)
            .expect("response");
        assert_eq!(error_of(&res), (-32602, "limit must be a number".to_string()));
        assert_eq!(res.id, Value::from(9));
    }
    assert!(recorder.calls.borrow().is_empty());
}

#[test]
fn tools_call_refuses_other_unusable_params() {
    let recorder = Recorder::new();
    let refused = |params: Option<&str>| {
        let res = handle_request(call(Some(Value::from(1)), "tools/call", params), &recorder)
            .expect("response");
        error_of(&res)
    };
    assert_eq!(refused(None), (-32602, "Missing params".to_string()));
    assert_eq!(refused(Some("[]")), (-32602, "params must be an object".to_string()));
    assert_eq!(refused(Some("{}")), (-32602, "Missing tool name".to_string()));
    assert_eq!(refused(Some(r#"{"name": 1}"#)), (-32602, "Missing tool name".to_string()));
    assert_eq!(refused(Some(r#"{"name": "other"}"#)), (-32601, "Unknown tool".to_string()));
    assert_eq!(
        refused(Some(r#"{"name":"apex_logs_sync","arguments":{"target":1}}"#)),
        (-32602, "target must be a string".to_string())
    );
    assert_eq!(
        refused(Some(r#"{"name":"apex_logs_sync","arguments":{"limit":"x","target":1}}"#)),
        (-32602, "limit must be a number".to_string())
    );
    assert!(recorder.calls.borrow().is_empty());
}

#[test]
fn tools_call_hands_limit_and_target_to_the_provider() {
    let recorder = Recorder::new();
    let params = r#"{"name":"apex_logs_sync","arguments":{"limit":25,"target":"alias"}}"#;
    let res = handle_request(call(Some(Value::from(1)), "tools/call", Some(params)), &recorder)
        .expect("response");
    let value = res.to_value();
    assert_eq!(value["id"], 1);
    assert_eq!(value["jsonrpc"], "2.0");
    assert!(value.get("error").is_none());
    assert_eq!(value["result"]["isError"], true);
    assert_eq!(value["result"]["content"][0]["type"], "text");
    let text = value["result"]["content"][0]["text"].as_str().expect("text");
    assert_eq!(
        parse(text),
        parse(r#"{"ok":false,"errorCode":"TEST","message":"test","details":null}"#)
    );

    for params in [
        r#"{"name":"apex_logs_sync"}"#,
        r#"{"name":"apex_logs_sync","arguments":7}"#,
        r#"{"name":"apex_logs_sync","arguments":{"limit":4294967297}}"#,
    ] {
        handle_request(call(Some(Value::from(1)), "tools/call", Some(params)), &recorder)
            .expect("response");
    }
    assert_eq!(
        *recorder.calls.borrow(),
        vec![
            (Some(25), Some("alias".to_string())),
            (None, None),
            (None, None),
            (Some(u32::MAX), None)
        ]
    );
}

#[test]
fn plan_tools_call_reads_the_arguments() {
    let plan = plan_tools_call(&Some(parse(
        r#"{"name":"apex_logs_sync","arguments":{"limit":0,"target":""}}"#,
    )))
    .expect("plan");
    assert_eq!(plan.limit, Some(0));
    assert_eq!(plan.target.as_deref(), Some(""));
    let error = plan_tools_call(&None).expect_err("error");
    assert_eq!((error.code, error.message.as_str()), (-32602, "Missing params"));
}

#[test]
fn route_decides_without_a_provider() {
    assert!(matches!(route(call(None, "tools/call", None)), Route::Silent));
    assert!(matches!(route(call(Some(Value::from(1)), "tools/list", None)), Route::Reply(_)));
    let decision = route(call(
        Some(Value::from(1)),
        "tools/call",
        Some(r#"{"name":"apex_logs_sync","arguments":{"limit":3}}"#),
    ));
    assert!(matches!(
        decision,
        Route::Sync { id, call } if id == Value::from(1) && call.limit == Some(3) && call.target.is_none()
    ));
    let decision = route(call(
        Some(Value::from(1)),
        "tools/call",
        Some(r#"{"name":"apex_logs_sync","arguments":{"limit":"3"}}"#),
    ));
    assert!(matches!(decision, Route::Reply(response) if response.error.is_some()));
}

#[test]
fn handle_tools_call_answers_the_id() {
    let res = handle_tools_call(
        Value::from("call-1"),
        Some(parse(r#"{"name":"apex_logs_sync"}"#)),
        &FakeLogsSync,
    );
    assert_eq!(res.id, Value::from("call-1"));
    assert!(res.error.is_none());
    let res = handle_tools_call(Value::from("call-2"), None, &FakeLogsSync);
    assert_eq!(error_of(&res), (-32602, "Missing params".to_string()));
}

#[test]
fn tool_results_wrap_the_payload_as_text() {
    let res = tool_response(Value::from(1), "hello", true);
    assert_eq!(
        res.to_value(),
        parse(
            r#"{"jsonrpc":"2.0","id":1,"result":{"content":[{"type":"text","text":"hello"}],"isError":true}}"#
        )
    );
    let res = tool_result(Value::Null, &parse(r#"{"b":[1,"x"],"a":null}"#), false);
    let value = res.to_value();
    assert_eq!(value["result"]["content"][0]["text"], r#"{"a":null,"b":[1,"x"]}"#);
    let res = sync_response(Value::from(1), Ok(sample_output()));
    let value = res.to_value();
    assert_eq!(value["result"]["isError"], false);
    let payload = parse(value["result"]["content"][0]["text"].as_str().expect("text"));
    assert_eq!(payload, sample_output().to_value());
}

#[test]
fn responses_hold_a_result_or_an_error() {
    let ok = Response::ok(Value::from(1), Value::from("r"));
    assert_eq!(ok.jsonrpc, "2.0");
    assert_eq!(ok.to_value(), parse(r#"{"jsonrpc":"2.0","id":1,"result":"r"}"#));
    let error = Response::error(Value::Null, -32700, "bad");
    assert_eq!(
        error.to_value(),
        parse(r#"{"jsonrpc":"2.0","id":null,"error":{"code":-32700,"message":"bad"}}"#)
    );
}

#[test]
fn requests_are_read_from_objects() {
    let request = Request::from_value(&parse(
        r#"{"jsonrpc":"2.0","id":7,"method":"tools/call","params":{"name":"x"},"extra":true}"#,
    ))
    .expect("request");
    assert_eq!(request.jsonrpc.as_deref(), Some("2.0"));
    assert_eq!(request.id, Some(Value::from(7)));
    assert_eq!(request.method, "tools/call");
    assert_eq!(request.params, Some(parse(r#"{"name":"x"}"#)));

    let request = Request::from_value(&parse(r#"{"id":null,"method":"m","params":null,"jsonrpc":null}"#))
        .expect("request");
    assert!(request.jsonrpc.is_none());
    assert!(request.id.is_none());
    assert!(request.params.is_none());

    let refused = |text: &str| Request::from_value(&parse(text)).expect_err("refused");
    assert_eq!(refused("[]"), "request must be an object");
    assert_eq!(refused(r#"{"jsonrpc":2,"method":"m"}"#), "jsonrpc must be a string");
    assert_eq!(refused("{}"), "missing field `method`");
    assert_eq!(refused(r#"{"method":null}"#), "method must be a string");
}
