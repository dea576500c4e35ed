use apex_log_viewer::http::{
    build_body_url, build_logs_query, build_query_url, clamp_limit, fetch_log_body,
    query_apex_logs, HttpError, HttpReply,
};

#[test]
fn build_logs_query_includes_limit_and_order() {
    let query = build_logs_query(25);
    assert!(query.contains("FROM ApexLog"));
    assert!(query.contains("ORDER BY StartTime DESC, Id DESC"));
    assert!(query.contains("LIMIT 25"));
}

#[test]
fn build_query_url_encodes_soql_and_trims_slash() {
    let soql = "SELECT Id FROM ApexLog LIMIT 1";
    let url = build_query_url("https://example.my.salesforce.com/", "64.0", soql);
    assert!(url.starts_with("https://example.my.salesforce.com/services/data/v64.0/tooling/query?q="));
    assert!(url.contains("SELECT%20Id%20FROM%20ApexLog%20LIMIT%201"));
}

#[test]
fn build_logs_query_is_the_whole_statement() {
    assert_eq!(
        build_logs_query(7),
        "SELECT Id, StartTime, Operation, Application, DurationMilliseconds, Status, Request, LogLength, LogUser.Name FROM ApexLog ORDER BY StartTime DESC, Id DESC LIMIT 7"
    );
}

#[test]
fn build_logs_query_clamps_the_limit() {
    assert!(build_logs_query(0).ends_with(" LIMIT 1"));
    assert!(build_logs_query(1).ends_with(" LIMIT 1"));
    assert!(build_logs_query(100).ends_with(" LIMIT 100"));
    assert!(build_logs_query(200).ends_with(" LIMIT 200"));
    assert!(build_logs_query(201).ends_with(" LIMIT 200"));
    assert!(build_logs_query(u32::MAX).ends_with(" LIMIT 200"));
}

#[test]
fn clamp_limit_keeps_the_range() {
    assert_eq!(clamp_limit(0), 1);
    assert_eq!(clamp_limit(1), 1);
    assert_eq!(clamp_limit(57), 57);
    assert_eq!(clamp_limit(200), 200);
    assert_eq!(clamp_limit(4_000_000_000), 200);
}

#[test]
fn build_query_url_is_the_same_with_and_without_slash() {
    let with = build_query_url("https://example.my.salesforce.com/", "64.0", "SELECT 1");
    let without = build_query_url("https://example.my.salesforce.com", "64.0", "SELECT 1");
    let many = build_query_url("https://example.my.salesforce.com///", "64.0", "SELECT 1");
    assert_eq!(with, without);
    assert_eq!(many, without);
    assert_eq!(
        without,
        "https://example.my.salesforce.com/services/data/v64.0/tooling/query?q=SELECT%201"
    );
}

#[test]
fn build_query_url_encodes_reserved_and_non_ascii() {
    let url = build_query_url("h", "1.0", "a-b_c.d~e,f/g é");
    assert_eq!(url, "h/services/data/v1.0/tooling/query?q=a-b_c.d~e%2Cf%2Fg%20%C3%A9");
}

#[test]
fn build_body_url_names_the_log() {
    assert_eq!(
        build_body_url("https://example.my.salesforce.com/", "64.0", "07L001"),
        "https://example.my.salesforce.com/services/data/v64.0/tooling/sobjects/ApexLog/07L001/Body"
    );
    assert_eq!(
        build_body_url("https://example.my.salesforce.com", "64.0", "07L001"),
        build_body_url("https://example.my.salesforce.com/", "64.0", "07L001")
    );
}

#[test]
fn http_error_messages() {
    assert_eq!(
        HttpError::RequestFailed("404 Not Found".to_string()).message(),
        "request failed: 404 Not Found"
    );
    assert_eq!(HttpError::DecodeFailed.message(), "response decode failed");
}

const RECORDS: &str = r#"{
  "size": 2,
  "records": [
    {
      "attributes": {"type": "ApexLog"},
      "Id": "07L001",
      "StartTime": "2025-01-01T00:00:00.000+0000",
      "Operation": "EXECUTION",
      "Application": "Apex",
      "DurationMilliseconds": 42,
      "Status": "Success",
      "Request": "API",
      "LogLength": 1234,
      "LogUser": {"Name": "User Name"}
    },
    {
      "Id": "07L002",
      "StartTime": "2025-01-02T00:00:00.000+0000",
      "Operation": "/apex/page",
      "Application": "Browser",
      "DurationMilliseconds": -1,
      "Status": "Failed",
      "Request": "Application",
      "LogLength": 0,
      "LogUser": null
    }
  ]
}"#;

#[test]
fn query_apex_logs_reads_the_records() {
    let logs = query_apex_logs(HttpReply::Body(RECORDS.to_string())).expect("records");
    assert_eq!(logs.len(), 2);
    assert_eq!(logs[0].id, "07L001");
    assert_eq!(logs[0].start_time, "2025-01-01T00:00:00.000+0000");
    assert_eq!(logs[0].operation, "EXECUTION");
    assert_eq!(logs[0].application, "Apex");
    assert_eq!(logs[0].duration_milliseconds, 42);
    assert_eq!(logs[0].status, "Success");
    assert_eq!(logs[0].request, "API");
    assert_eq!(logs[0].log_length, 1234);
    assert_eq!(
        logs[0].log_user.as_ref().and_then(|user| user.name.as_deref()),
        Some("User Name")
    );
    assert_eq!(logs[1].id, "07L002");
    assert_eq!(logs[1].duration_milliseconds, -1);
    assert!(logs[1].log_user.is_none());
}

#[test]
fn query_apex_logs_reads_users_without_a_name() {
    let body = r#"{"records":[{"Id":"a","StartTime":"b","Operation":"c","Application":"d","DurationMilliseconds":1,"Status":"e","Request":"f","LogLength":2,"LogUser":{"Name":null}},{"Id":"a","StartTime":"b","Operation":"c","Application":"d","DurationMilliseconds":1,"Status":"e","Request":"f","LogLength":2}]}"#;
    let logs = query_apex_logs(HttpReply::Body(body.to_string())).expect("records");
    assert_eq!(logs.len(), 2);
    assert!(logs[0].log_user.as_ref().expect("user").name.is_none());
    assert!(logs[1].log_user.is_none());
}

#[test]
fn query_apex_logs_reads_an_empty_list() {
    let logs = query_apex_logs(HttpReply::Body(r#"{"records":[]}"#.to_string())).expect("records");
    assert!(logs.is_empty());
}

fn decode_fails(body: &str) -> bool {
    matches!(
        query_apex_logs(HttpReply::Body(body.to_string())),
        Err(HttpError::DecodeFailed)
    )
}

#[test]
fn query_apex_logs_rejects_other_shapes() {
    assert!(decode_fails("not json"));
    assert!(decode_fails("[]"));
    assert!(decode_fails("{}"));
    assert!(decode_fails(r#"{"records": {}}"#));
    assert!(decode_fails(r#"{"records": [1]}"#));
    assert!(decode_fails(r#"{"records":[{"Id":"a"}]}"#));
    // A number that is no integer, a string that is null, a user that is no object.
    assert!(decode_fails(
        r#"{"records":[{"Id":"a","StartTime":"b","Operation":"c","Application":"d","DurationMilliseconds":1.5,"Status":"e","Request":"f","LogLength":2}]}"#
    ));
    assert!(decode_fails(
        r#"{"records":[{"Id":"a","StartTime":"b","Operation":null,"Application":"d","DurationMilliseconds":1,"Status":"e","Request":"f","LogLength":2}]}"#
    ));
    assert!(decode_fails(
        r#"{"records":[{"Id":"a","StartTime":"b","Operation":"c","Application":"d","DurationMilliseconds":1,"Status":"e","Request":"f","LogLength":2,"LogUser":"x"}]}"#
    ));
    assert!(decode_fails(
        r#"{"records":[{"Id":"a","StartTime":"b","Operation":"c","Application":"d","DurationMilliseconds":1,"Status":"e","Request":"f","LogLength":2,"LogUser":{"Name":3}}]}"#
    ));
}

#[test]
fn query_apex_logs_reports_failed_requests() {
    assert!(matches!(
        query_apex_logs(HttpReply::Failed("connection refused".to_string())),
        Err(HttpError::RequestFailed(detail)) if detail == "connection refused"
    ));
    assert!(matches!(
        query_apex_logs(HttpReply::Rejected("401 Unauthorized".to_string())),
        Err(HttpError::RequestFailed(detail)) if detail == "401 Unauthorized"
    ));
    assert!(matches!(
        query_apex_logs(HttpReply::Unreadable("timed out".to_string())),
        Err(HttpError::DecodeFailed)
    ));
}

#[test]
fn fetch_log_body_hands_the_text_on() {
    let body = "12:00:00.0 (1)|EXECUTION_STARTED\n{not json}\n";
    assert_eq!(fetch_log_body(HttpReply::Body(body.to_string())).expect("body"), body);
}

#[test]
fn fetch_log_body_reports_failed_requests() {
    assert!(matches!(
        fetch_log_body(HttpReply::Failed("connection refused".to_string())),
        Err(HttpError::RequestFailed(detail)) if detail == "connection refused"
    ));
    assert!(matches!(
        fetch_log_body(HttpReply::Rejected("404 Not Found".to_string())),
        Err(HttpError::RequestFailed(detail)) if detail == "404 Not Found"
    ));
    assert!(matches!(
        fetch_log_body(HttpReply::Unreadable("timed out".to_string())),
        Err(HttpError::RequestFailed(detail)) if detail == "timed out"
    ));
}
