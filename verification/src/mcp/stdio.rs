//! One line in, at most one line out.

use crate::json::{
    json_reading, optional_text, parse_value, value_null, write_value, written_line, Json,
};
use crate::mcp::handlers::{handle_request, answers_sync, route_of, LogsSyncProvider, RouteView};
use crate::mcp::protocol::{request_of_json, Request, RequestView, Response, ResponseView};
use crate::text::{join, trim, trimmed};
use vstd::prelude::*;

verus! {

/// The code for a line that holds no request.
pub const PARSE_ERROR: i64 = -32700;

/// The request that a text holds, or what is wrong with it: the message of
/// the JSON reader, or what keeps the JSON from being a request.
pub open spec fn request_of_text(text: Seq<char>) -> Result<RequestView, Seq<char>> {
    match json_reading(text) {
        Ok(json) => request_of_json(json),
        Err(message) => Err(message),
    }
}

/// The response to a line that holds no request. It answers the id `null`,
/// since none could be read.
pub open spec fn parse_error_response(detail: Seq<char>) -> ResponseView {
    ResponseView::error(Json::Null, PARSE_ERROR, "Parse error: "@ + detail)
}

/// Reads the request that a text holds.
pub fn read_request(text: &str) -> (request: Result<Request, String>)
    ensures
        match request {
            Ok(request) => request_of_text(text@) == Ok::<RequestView, Seq<char>>(request@),
            Err(message) => request_of_text(text@) == Err::<RequestView, Seq<char>>(message@),
        },
{
    match parse_value(text) {
        Ok(value) => Request::from_value(&value),
        Err(message) => Err(message),
    }
}

/// The response to a line that holds no request.
pub fn parse_error(detail: &str) -> (response: Response)
    ensures
        response@ == parse_error_response(detail@),
{
    let message = join("Parse error: ", detail);
    Response::error(value_null(), PARSE_ERROR, message.as_str())
}

/// The line that carries a response: the compact text of its JSON, and
/// none where that cannot be written.
pub fn write_response(response: &Response) -> (line: Option<String>)
    ensures
        optional_text(line) == written_line(response@.to_json()),
{
    let value = response.to_value();
    match write_value(&value) {
        Ok(text) => Some(text),
        Err(_) => None,
    }
}

/// Whether `answer` is what a trimmed line that is not empty is answered
/// with. A line that holds no request gets the parse error for it. A
/// notification gets nothing. A request with a fixed answer gets that, and
/// one that is routed to a sync gets the outcome of some sync for its id.
/// Each answer is the line that carries the response, and none where that
/// cannot be written.
pub open spec fn answers(answer: Option<Seq<char>>, asked: Seq<char>) -> bool {
    match request_of_text(asked) {
        Err(detail) => answer == written_line(parse_error_response(detail).to_json()),
        Ok(request) => match route_of(request) {
            RouteView::Silent => answer is None,
            RouteView::Reply(reply) => answer == written_line(reply.to_json()),
            RouteView::Sync { id, .. } => exists|response: ResponseView|
                answers_sync(response, id) && answer == written_line(
                    #[trigger] response.to_json(),
                ),
        },
    }
}

/// Answers one line of input. A line of nothing but white space gets no
/// answer, and neither does a notification, whatever its method. Any other
/// line is answered as [`answers`] says; the provider is called only for a
/// request that is routed to a sync.
pub fn handle_line<P: LogsSyncProvider>(line: &str, provider: &P) -> (answer: Option<String>)
    ensures
        trimmed(line@).len() == 0 ==> answer is None,
        trimmed(line@).len() > 0 ==> answers(optional_text(answer), trimmed(line@)),
        request_of_text(trimmed(line@)) matches Ok(request) && request.id is None ==> answer
            is None,
{
    let asked = trim(line);
    if asked.as_str().unicode_len() == 0 {
        return None;
    }
    match read_request(asked.as_str()) {
        Ok(request) => match handle_request(request, provider) {
            Some(response) => write_response(&response),
            None => None,
        },
        Err(detail) => {
            let response = parse_error(detail.as_str());
            write_response(&response)
        },
    }
}

} // verus!
