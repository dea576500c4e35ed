use apex_log_viewer::mcp::handlers::LogsSyncProvider;
use apex_log_viewer::mcp::stdio::{handle_line, parse_error, read_request, write_response};
use apex_log_viewer::output::{ErrorOutput, SyncOutput};

struct FakeLogsSync;

impl LogsSyncProvider for FakeLogsSync {
    fn logs_sync(&self, _limit: Option<u32>, _target: Option<String>) -> Result<SyncOutput, ErrorOutput> {
        Err(ErrorOutput {
            ok: false,
            error_code: "TEST".to_string(),
            message: "test".to_string(),
            details: None,
        })
    }
}

fn parse(text: &str) -> serde_json::Value {
    serde_json::from_str(text).expect("json")
}

#[test]
fn handle_line_returns_parse_error_response() {
    let response = handle_line("{not json}", &FakeLogsSync).expect("response");
    let value: serde_json::Value = serde_json::from_str(&response).expect("json");
    assert_eq!(value["error"]["code"], -32700);
}

#[test]
fn handle_line_addresses_parse_errors_to_null() {
    let response = handle_line("{not json}", &FakeLogsSync).expect("response");
    let value = parse(&response);
    assert!(value["id"].is_null());
    assert_eq!(value["jsonrpc"], "2.0");
    assert!(value.get("result").is_none());
    let message = value["error"]["message"].as_str().expect("message");
    assert!(message.starts_with("Parse error: "));
    assert!(message.len() > "Parse error: ".len());
}

#[test]
fn handle_line_refuses_json_that_is_no_request() {
    for line in ["[]", "7", r#"{"id":1}"#, r#"{"id":1,"method":5}"#] {
        let value = parse(&handle_line(line, &FakeLogsSync).expect("response"));
        assert_eq!(value["error"]["code"], -32700);
        assert!(value["id"].is_null());
    }
    let value = parse(&handle_line(r#"{"id":1}"#, &FakeLogsSync).expect("response"));
    assert_eq!(value["error"]["message"], "Parse error: missing field `method`");
}

#[test]
fn handle_line_passes_over_blank_lines() {
    assert!(handle_line("", &FakeLogsSync).is_none());
    assert!(handle_line("   \t\r\n", &FakeLogsSync).is_none());
}

#[test]
fn handle_line_is_silent_for_notifications() {
    for line in [
        r#"{"jsonrpc":"2.0","method":"initialize"}"#,
        r#"{"jsonrpc":"2.0","method":"notifications/initialized"}"#,
        r#"{"jsonrpc":"2.0","id":null,"method":"tools/list"}"#,
        r#"{"method":"tools/call","params":{"name":"apex_logs_sync","arguments":{"limit":"x"}}}"#,
        r#"{"method":"tools/call","params":{"name":"apex_logs_sync"}}"#,
    ] {
        assert!(handle_line(line, &FakeLogsSync).is_none());
    }
}

#[test]
fn handle_line_answers_in_one_line() {
    let response =
        handle_line("  {\"jsonrpc\":\"2.0\",\"id\":\"a\",\"method\":\"tools/list\"}\r\n", &FakeLogsSync)
            .expect("response");
    assert!(!response.contains('\n'));
    let value = parse(&response);
    assert_eq!(value["id"], "a");
    assert_eq!(value["result"]["tools"][0]["name"], "apex_logs_sync");
}

#[test]
fn handle_line_wraps_the_failure_of_a_sync() {
    let line = r#"{"jsonrpc":"2.0","id":5,"method":"tools/call","params":{"name":"apex_logs_sync","arguments":{}}}"#;
    let value = parse(&handle_line(line, &FakeLogsSync).expect("response"));
    assert_eq!(value["id"], 5);
    assert!(value.get("error").is_none());
    assert_eq!(value["result"]["isError"], true);
    let payload = parse(value["result"]["content"][0]["text"].as_str().expect("text"));
    assert_eq!(payload["errorCode"], "TEST");
    assert_eq!(payload["ok"], false);
}

#[test]
fn handle_line_echoes_any_id() {
    for id in ["1.5", "-3", r#""x""#, "[1]", "18446744073709551615", "1e30"] {
        let line = format!(r#"{{"id":{id},"method":"nothing"}}"#);
        let value = parse(&handle_line(&line, &FakeLogsSync).expect("response"));
        assert_eq!(value["id"], parse(id));
        assert_eq!(value["error"]["code"], -32601);
    }
}

#[test]
fn requests_and_responses_pass_through_text() {
    let request = read_request(r#"{"id":1,"method":"m"}"#).expect("request");
    assert_eq!(request.method, "m");
    assert!(read_request("{").is_err());
    let line = write_response(&parse_error("oops")).expect("line");
    assert_eq!(
        parse(&line),
        parse(r#"{"jsonrpc":"2.0","id":null,"error":{"code":-32700,"message":"Parse error: oops"}}"#)
    );
}
