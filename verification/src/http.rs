//! The two requests to the Tooling API, and what their replies mean.
//!
//! Nothing here sends anything. The functions build the query and the
//! addresses, and turn the outcome of a request, handed in as an
//! [`HttpReply`], into rows, a log body or an [`HttpError`].

use crate::json::{
    json_of, json_reading, jsons_of, parse_value, text_member, value_as_array, value_as_i64,
    value_get, value_is_null, value_is_object, Json,
};
use crate::output::{log_views, ApexLogSummary, ApexLogSummaryView, ApexLogUser, ApexLogUserView};
use crate::text::{
    decimal, decimal_digits, lemma_without_trailing_push, strip_trailing, without_trailing,
};
use vstd::prelude::*;
use vstd::utf8::encode_utf8;

verus! {

/// Why a request gave no result.
#[derive(Debug, Clone)]
pub enum HttpError {
    RequestFailed(String),
    DecodeFailed,
}

pub enum HttpErrorView {
    RequestFailed(Seq<char>),
    DecodeFailed,
}

impl View for HttpError {
    type V = HttpErrorView;

    open spec fn view(&self) -> HttpErrorView {
        match self {
            HttpError::RequestFailed(detail) => HttpErrorView::RequestFailed(detail@),
            HttpError::DecodeFailed => HttpErrorView::DecodeFailed,
        }
    }
}

impl HttpErrorView {
    /// The error in words.
    pub open spec fn message(self) -> Seq<char> {
        match self {
            HttpErrorView::RequestFailed(detail) => "request failed: "@ + detail,
            HttpErrorView::DecodeFailed => "response decode failed"@,
        }
    }
}

impl HttpError {
    /// The error in words.
    pub fn message(&self) -> (text: String)
        ensures
            text@ == self@.message(),
    {
        match self {
            HttpError::RequestFailed(detail) => {
                let mut text = String::from_str("request failed: ");
                text.append(detail.as_str());
                text
            },
            HttpError::DecodeFailed => String::from_str("response decode failed"),
        }
    }
}

/// The smallest and the largest number of logs that one query asks for.
pub const MIN_LIMIT: u32 = 1;

pub const MAX_LIMIT: u32 = 200;

/// The limit brought into the range from `MIN_LIMIT` to `MAX_LIMIT`.
pub open spec fn clamped_limit(limit: u32) -> u32 {
    if limit < MIN_LIMIT {
        MIN_LIMIT
    } else if limit > MAX_LIMIT {
        MAX_LIMIT
    } else {
        limit
    }
}

/// The limit brought into the range from `MIN_LIMIT` to `MAX_LIMIT`.
pub fn clamp_limit(limit: u32) -> (safe: u32)
    ensures
        safe == clamped_limit(limit),
        MIN_LIMIT <= safe <= MAX_LIMIT,
{
    if limit < MIN_LIMIT {
        MIN_LIMIT
    } else if limit > MAX_LIMIT {
        MAX_LIMIT
    } else {
        limit
    }
}

/// The query up to the number that ends it.
pub const LOGS_QUERY_HEAD: &'static str =
    "SELECT Id, StartTime, Operation, Application, DurationMilliseconds, Status, Request, LogLength, LogUser.Name FROM ApexLog ORDER BY StartTime DESC, Id DESC LIMIT ";

/// The query for the newest logs: the fixed selection, newest first, and the
/// clamped limit as a decimal numeral.
pub open spec fn logs_query(limit: u32) -> Seq<char> {
    LOGS_QUERY_HEAD@ + decimal_digits(clamped_limit(limit) as nat)
}

/// The query for the newest `limit` logs, the limit clamped.
pub fn build_logs_query(limit: u32) -> (query: String)
    ensures
        query@ == logs_query(limit),
{
    let safe = clamp_limit(limit);
    let mut query = String::from_str(LOGS_QUERY_HEAD);
    let number = decimal(safe as u64);
    query.append(number.as_str());
    query
}

/// The bytes that percent-encoding leaves as they are: ASCII letters and
/// digits, `-`, `.`, `_` and `~`.
pub open spec fn is_unreserved(byte: u8) -> bool {
    (0x30 <= byte <= 0x39) || (0x41 <= byte <= 0x5a) || (0x61 <= byte <= 0x7a) || byte == 0x2d
        || byte == 0x2e || byte == 0x5f || byte == 0x7e
}

/// The upper-case hexadecimal digit of a value below 16.
pub open spec fn hex_digit(value: u8) -> char {
    if value < 10 {
        (0x30 + value) as char
    } else {
        (0x37 + value) as char
    }
}

/// Percent-encoding of a byte string: an unreserved byte stands for itself,
/// any other becomes `%` and its two hexadecimal digits.
pub open spec fn percent_encoded(bytes: Seq<u8>) -> Seq<char>
    decreases bytes.len(),
{
    if bytes.len() == 0 {
        Seq::empty()
    } else {
        let byte = bytes.last();
        let rest = percent_encoded(bytes.drop_last());
        if is_unreserved(byte) {
            rest.push(byte as char)
        } else {
            rest.push('%').push(hex_digit(byte / 16)).push(hex_digit(byte % 16))
        }
    }
}

/// `urlencoding::encode`: the percent-encoding of the string's UTF-8 bytes.
#[verifier::external_body]
fn percent_encode(text: &str) -> (out: String)
    ensures
        out@ == percent_encoded(encode_utf8(text@)),
{
    urlencoding::encode(text).into_owned()
}

/// The address of the query endpoint with the query in it.
pub open spec fn query_url(instance_url: Seq<char>, api_version: Seq<char>, soql: Seq<char>) -> Seq<
    char,
> {
    without_trailing(instance_url, '/') + "/services/data/v"@ + api_version + "/tooling/query?q="@
        + percent_encoded(encode_utf8(soql))
}

/// The address of the query endpoint for `soql`: the instance without
/// trailing slashes, the versioned path, and the query percent-encoded.
pub fn build_query_url(instance_url: &str, api_version: &str, soql: &str) -> (url: String)
    ensures
        url@ == query_url(instance_url@, api_version@, soql@),
{
    let mut url = strip_trailing(instance_url, '/');
    url.append("/services/data/v");
    url.append(api_version);
    url.append("/tooling/query?q=");
    let encoded = percent_encode(soql);
    url.append(encoded.as_str());
    url
}

/// The address of the body of one log.
pub open spec fn body_url(instance_url: Seq<char>, api_version: Seq<char>, log_id: Seq<char>) -> Seq<
    char,
> {
    without_trailing(instance_url, '/') + "/services/data/v"@ + api_version
        + "/tooling/sobjects/ApexLog/"@ + log_id + "/Body"@
}

/// The address of the body of the log `log_id`.
pub fn build_body_url(instance_url: &str, api_version: &str, log_id: &str) -> (url: String)
    ensures
        url@ == body_url(instance_url@, api_version@, log_id@),
{
    let mut url = strip_trailing(instance_url, '/');
    url.append("/services/data/v");
    url.append(api_version);
    url.append("/tooling/sobjects/ApexLog/");
    url.append(log_id);
    url.append("/Body");
    url
}

/// With or without a slash at the end of the instance address, the query
/// endpoint is the same.
pub proof fn lemma_query_url_ignores_trailing_slash(
    instance_url: Seq<char>,
    api_version: Seq<char>,
    soql: Seq<char>,
)
    ensures
        query_url(instance_url.push('/'), api_version, soql) == query_url(
            instance_url,
            api_version,
            soql,
        ),
{
    lemma_without_trailing_push(instance_url, '/');
}

/// With or without a slash at the end of the instance address, the address
/// of a log body is the same.
pub proof fn lemma_body_url_ignores_trailing_slash(
    instance_url: Seq<char>,
    api_version: Seq<char>,
    log_id: Seq<char>,
)
    ensures
        body_url(instance_url.push('/'), api_version, log_id) == body_url(
            instance_url,
            api_version,
            log_id,
        ),
{
    lemma_without_trailing_push(instance_url, '/');
}

/// How a request ended.
#[derive(Debug, Clone)]
pub enum HttpReply {
    /// No response came; the transport's message.
    Failed(String),
    /// A response outside the 2xx range; its status in words.
    Rejected(String),
    /// A 2xx response whose body could not be read; the transport's message.
    Unreadable(String),
    /// A 2xx response; its body.
    Body(String),
}

pub enum HttpReplyView {
    Failed(Seq<char>),
    Rejected(Seq<char>),
    Unreadable(Seq<char>),
    Body(Seq<char>),
}

impl View for HttpReply {
    type V = HttpReplyView;

    open spec fn view(&self) -> HttpReplyView {
        match self {
            HttpReply::Failed(detail) => HttpReplyView::Failed(detail@),
            HttpReply::Rejected(status) => HttpReplyView::Rejected(status@),
            HttpReply::Unreadable(detail) => HttpReplyView::Unreadable(detail@),
            HttpReply::Body(text) => HttpReplyView::Body(text@),
        }
    }
}

/// The string member `key`, which has to be there.
pub open spec fn text_field(json: Json, key: Seq<char>) -> Option<Seq<char>> {
    match json.field(key) {
        Some(member) => member.text(),
        None => None,
    }
}

/// The member `key`, which has to be there and to be an integer in `i64`.
pub open spec fn int_field(json: Json, key: Seq<char>) -> Option<i64> {
    match json.field(key) {
        Some(member) => member.signed(),
        None => None,
    }
}

/// The member `key` where it may be missing or `null`: `None` stands for a
/// member of another kind than string.
pub open spec fn optional_text_field(json: Json, key: Seq<char>) -> Option<Option<Seq<char>>> {
    match json.field(key) {
        None => Some(None),
        Some(Json::Null) => Some(None),
        Some(Json::Text(text)) => Some(Some(text)),
        Some(_) => None,
    }
}

/// The user that an object stands for.
pub open spec fn user_of_json(json: Json) -> Option<ApexLogUserView> {
    if json is Object {
        match optional_text_field(json, "Name"@) {
            Some(name) => Some(ApexLogUserView { name }),
            None => None,
        }
    } else {
        None
    }
}

/// The member `LogUser` of a row, which may be missing or `null`.
pub open spec fn user_field(json: Json) -> Option<Option<ApexLogUserView>> {
    match json.field("LogUser"@) {
        None => Some(None),
        Some(Json::Null) => Some(None),
        Some(member) => match user_of_json(member) {
            Some(user) => Some(Some(user)),
            None => None,
        },
    }
}

/// The row that an object stands for: every string and number has to be
/// there, members of other names are passed over.
pub open spec fn log_of_json(json: Json) -> Option<ApexLogSummaryView> {
    if text_field(json, "Id"@) is Some && text_field(json, "StartTime"@) is Some && text_field(
        json,
        "Operation"@,
    ) is Some && text_field(json, "Application"@) is Some && int_field(
        json,
        "DurationMilliseconds"@,
    ) is Some && text_field(json, "Status"@) is Some && text_field(json, "Request"@) is Some
        && int_field(json, "LogLength"@) is Some && user_field(json) is Some {
        Some(
            ApexLogSummaryView {
                id: text_field(json, "Id"@)->0,
                start_time: text_field(json, "StartTime"@)->0,
                operation: text_field(json, "Operation"@)->0,
                application: text_field(json, "Application"@)->0,
                duration_milliseconds: int_field(json, "DurationMilliseconds"@)->0,
                status: text_field(json, "Status"@)->0,
                request: text_field(json, "Request"@)->0,
                log_length: int_field(json, "LogLength"@)->0,
                log_user: user_field(json)->0,
            },
        )
    } else {
        None
    }
}

/// The rows of a query response: its member `records`, an array of rows.
pub open spec fn logs_of_json(json: Json) -> Option<Seq<ApexLogSummaryView>> {
    match json.field("records"@) {
        Some(Json::Array(items)) => if forall|i: int|
            0 <= i < items.len() ==> (#[trigger] log_of_json(items[i])) is Some {
            Some(Seq::new(items.len(), |i: int| log_of_json(items[i])->0))
        } else {
            None
        },
        _ => None,
    }
}

/// What the reply to the log query means.
pub open spec fn logs_of_reply(reply: HttpReplyView) -> Result<
    Seq<ApexLogSummaryView>,
    HttpErrorView,
> {
    match reply {
        HttpReplyView::Failed(detail) => Err(HttpErrorView::RequestFailed(detail)),
        HttpReplyView::Rejected(status) => Err(HttpErrorView::RequestFailed(status)),
        HttpReplyView::Unreadable(_) => Err(HttpErrorView::DecodeFailed),
        HttpReplyView::Body(text) => match json_reading(text) {
            Ok(json) => match logs_of_json(json) {
                Some(logs) => Ok(logs),
                None => Err(HttpErrorView::DecodeFailed),
            },
            Err(_) => Err(HttpErrorView::DecodeFailed),
        },
    }
}

/// What the reply to the request for a log body means.
pub open spec fn body_of_reply(reply: HttpReplyView) -> Result<Seq<char>, HttpErrorView> {
    match reply {
        HttpReplyView::Failed(detail) => Err(HttpErrorView::RequestFailed(detail)),
        HttpReplyView::Rejected(status) => Err(HttpErrorView::RequestFailed(status)),
        HttpReplyView::Unreadable(detail) => Err(HttpErrorView::RequestFailed(detail)),
        HttpReplyView::Body(text) => Ok(text),
    }
}

fn int_member(value: &serde_json::Value, key: &str) -> (found: Option<i64>)
    ensures
        found == int_field(json_of(*value), key@),
{
    match value_get(value, key) {
        Some(member) => value_as_i64(member),
        None => None,
    }
}

fn read_user(value: &serde_json::Value) -> (user: Option<ApexLogUser>)
    ensures
        match user {
            Some(user) => user_of_json(json_of(*value)) == Some(user@),
            None => user_of_json(json_of(*value)) is None,
        },
{
    if !value_is_object(value) {
        return None;
    }
    match value_get(value, "Name") {
        None => Some(ApexLogUser { name: None }),
        Some(member) => {
            if value_is_null(member) {
                Some(ApexLogUser { name: None })
            } else {
                match text_member(value, "Name") {
                    Some(name) => Some(ApexLogUser { name: Some(name) }),
                    None => None,
                }
            }
        },
    }
}

fn read_user_member(value: &serde_json::Value) -> (user: Option<Option<ApexLogUser>>)
    ensures
        match user {
            Some(Some(user)) => user_field(json_of(*value)) == Some(Some(user@)),
            Some(None) => user_field(json_of(*value)) == Some(None::<ApexLogUserView>),
            None => user_field(json_of(*value)) is None,
        },
{
    match value_get(value, "LogUser") {
        None => Some(None),
        Some(member) => {
            if value_is_null(member) {
                Some(None)
            } else {
                match read_user(member) {
                    Some(user) => Some(Some(user)),
                    None => None,
                }
            }
        },
    }
}

fn read_log(value: &serde_json::Value) -> (log: Option<ApexLogSummary>)
    ensures
        match log {
            Some(log) => log_of_json(json_of(*value)) == Some(log@),
            None => log_of_json(json_of(*value)) is None,
        },
{
    let id = text_member(value, "Id");
    let start_time = text_member(value, "StartTime");
    let operation = text_member(value, "Operation");
    let application = text_member(value, "Application");
    let duration = int_member(value, "DurationMilliseconds");
    let status = text_member(value, "Status");
    let request = text_member(value, "Request");
    let log_length = int_member(value, "LogLength");
    let user = read_user_member(value);
    match (id, start_time, operation, application, duration, status, request, log_length, user) {
        (
            Some(id),
            Some(start_time),
            Some(operation),
            Some(application),
            Some(duration_milliseconds),
            Some(status),
            Some(request),
            Some(log_length),
            Some(log_user),
        ) => Some(
            ApexLogSummary {
                id,
                start_time,
                operation,
                application,
                duration_milliseconds,
                status,
                request,
                log_length,
                log_user,
            },
        ),
        _ => None,
    }
}

fn read_logs(value: &serde_json::Value) -> (logs: Option<Vec<ApexLogSummary>>)
    ensures
        match logs {
            Some(logs) => logs_of_json(json_of(*value)) == Some(log_views(logs@)),
            None => logs_of_json(json_of(*value)) is None,
        },
{
    let records = match value_get(value, "records") {
        Some(records) => records,
        None => { return None; },
    };
    let items = match value_as_array(records) {
        Some(items) => items,
        None => { return None; },
    };
    let ghost models = jsons_of(items@);
    let mut logs: Vec<ApexLogSummary> = Vec::new();
    let mut i: usize = 0;
    while i < items.len()
        invariant
            i <= items.len(),
            logs@.len() == i,
            models == jsons_of(items@),
            json_of(*value).field("records"@) == Some(Json::Array(models)),
            forall|k: int| 0 <= k < i ==> log_of_json(models[k]) == Some(#[trigger] logs@[k]@),
        decreases items.len() - i,
    {
        match read_log(&items[i]) {
            Some(log) => {
                logs.push(log);
            },
            None => {
                assert(log_of_json(models[i as int]) is None);
                return None;
            },
        }
        i += 1;
    }
    proof {
        assert forall|k: int| 0 <= k < models.len() implies (#[trigger] log_of_json(
            models[k],
        )) is Some by {
            assert(log_of_json(models[k]) == Some(logs@[k]@));
        }
        assert(log_views(logs@) =~= Seq::new(models.len(), |i: int| log_of_json(models[i])->0));
    }
    Some(logs)
}

/// The rows that the reply to the log query holds. A request that failed or
/// was rejected is `RequestFailed` with the transport's message or the
/// status; a body that cannot be read, is no JSON or has another shape is
/// `DecodeFailed`.
pub fn query_apex_logs(reply: HttpReply) -> (result: Result<Vec<ApexLogSummary>, HttpError>)
    ensures
        match result {
            Ok(logs) => logs_of_reply(reply@) == Ok::<Seq<ApexLogSummaryView>, HttpErrorView>(
                log_views(logs@),
            ),
            Err(error) => logs_of_reply(reply@) == Err::<Seq<ApexLogSummaryView>, HttpErrorView>(
                error@,
            ),
        },
{
    match reply {
        HttpReply::Failed(detail) => Err(HttpError::RequestFailed(detail)),
        HttpReply::Rejected(status) => Err(HttpError::RequestFailed(status)),
        HttpReply::Unreadable(_) => Err(HttpError::DecodeFailed),
        HttpReply::Body(text) => match parse_value(text.as_str()) {
            Ok(value) => match read_logs(&value) {
                Some(logs) => Ok(logs),
                None => Err(HttpError::DecodeFailed),
            },
            Err(_) => Err(HttpError::DecodeFailed),
        },
    }
}

/// The log body that the reply holds, as it came. A request that failed, was
/// rejected or whose body could not be read is `RequestFailed`.
pub fn fetch_log_body(reply: HttpReply) -> (result: Result<String, HttpError>)
    ensures
        match result {
            Ok(body) => body_of_reply(reply@) == Ok::<Seq<char>, HttpErrorView>(body@),
            Err(error) => body_of_reply(reply@) == Err::<Seq<char>, HttpErrorView>(error@),
        },
{
    match reply {
        HttpReply::Failed(detail) => Err(HttpError::RequestFailed(detail)),
        HttpReply::Rejected(status) => Err(HttpError::RequestFailed(status)),
        HttpReply::Unreadable(detail) => Err(HttpError::RequestFailed(detail)),
        HttpReply::Body(text) => Ok(text),
    }
}

} // verus!
