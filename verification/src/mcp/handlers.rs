//! What the server does with a request.
//!
//! [`route`] decides, from the request alone, whether it gets no answer, a
//! fixed answer, or a sync. Only in the last case is the provider called;
//! what it hands back becomes the text of a tool result, failure or not.

use crate::http::{clamped_limit, MAX_LIMIT, MIN_LIMIT};
use crate::json::{
    json_of, json_printing, jsons_of, optional_json_of, optional_text, set_bool, set_member,
    set_text, text_member, value_array, value_as_str, value_as_u64, value_get, value_is_object,
    value_object, write_value, Json,
};
use crate::mcp::protocol::{Request, RequestView, Response, ResponseView, RpcError, RpcErrorView};
use crate::mcp::tools::{list_tools, tools_list, APEX_LOGS_SYNC_TOOL};
use crate::output::{outcome_view, ErrorOutput, ErrorOutputView, SyncOutput, SyncOutputView};
use crate::text::{copy_text, same_text};
use vstd::prelude::*;

verus! {

/// The protocol version named where the request names none.
pub const PROTOCOL_VERSION: &'static str = "2024-11-05";

/// The server's name and version.
pub const SERVER_NAME: &'static str = "apex-log-viewer-mcp";

pub const SERVER_VERSION: &'static str = "0.1.0";

/// The code for a method or tool that is not there.
pub const METHOD_NOT_FOUND: i64 = -32601;

/// The code for parameters that cannot be used.
pub const INVALID_PARAMS: i64 = -32602;

/// The text of a tool result whose payload could not be written as JSON.
pub const UNWRITTEN_PAYLOAD: &'static str =
    "{\"ok\":false,\"errorCode\":\"SERIALIZE_FAILED\",\"message\":\"Failed to serialize output.\"}";

/// Whoever runs a sync for the server.
pub trait LogsSyncProvider {
    fn logs_sync(&self, limit: Option<u32>, target: Option<String>) -> Result<
        SyncOutput,
        ErrorOutput,
    >;
}

/// What a call of the tool asks for.
#[derive(Debug, Clone)]
pub struct ToolCall {
    pub limit: Option<u32>,
    pub target: Option<String>,
}

pub struct ToolCallView {
    pub limit: Option<u32>,
    pub target: Option<Seq<char>>,
}

impl View for ToolCall {
    type V = ToolCallView;

    open spec fn view(&self) -> ToolCallView {
        ToolCallView { limit: self.limit, target: optional_text(self.target) }
    }
}

/// A number as a limit: itself, or the largest limit where it is larger.
pub open spec fn saturated(n: u64) -> u32 {
    if n > u32::MAX {
        u32::MAX
    } else {
        n as u32
    }
}

/// The sync clamps the limit that a call hands on to what it would clamp the
/// number in the call to: no number is made smaller on the way.
pub proof fn lemma_saturation_keeps_clamp(n: u64)
    ensures
        clamped_limit(saturated(n)) == if n < MIN_LIMIT {
            MIN_LIMIT as int
        } else if n > MAX_LIMIT {
            MAX_LIMIT as int
        } else {
            n as int
        },
{
}

/// What the parameters of `tools/call` ask for, or the error that answers
/// them. They have to be an object that names the tool. Its member
/// `arguments` may hold `limit`, which has to be an integer that fits
/// `u64` and counts as the largest limit where it is larger, and `target`,
/// which has to be a string.
pub open spec fn tool_call_of(params: Option<Json>) -> Result<ToolCallView, RpcErrorView> {
    match params {
        None => Err(RpcErrorView { code: INVALID_PARAMS, message: "Missing params"@ }),
        Some(params) => if !(params is Object) {
            Err(RpcErrorView { code: INVALID_PARAMS, message: "params must be an object"@ })
        } else {
            match params.field("name"@) {
                Some(Json::Text(name)) => if name != APEX_LOGS_SYNC_TOOL@ {
                    Err(RpcErrorView { code: METHOD_NOT_FOUND, message: "Unknown tool"@ })
                } else {
                    let arguments = match params.field("arguments"@) {
                        Some(arguments) => arguments,
                        None => Json::object(),
                    };
                    let limit = arguments.field("limit"@);
                    let target = arguments.field("target"@);
                    if limit is Some && limit->0.unsigned() is None {
                        Err(
                            RpcErrorView {
                                code: INVALID_PARAMS,
                                message: "limit must be a number"@,
                            },
                        )
                    } else if target is Some && target->0.text() is None {
                        Err(
                            RpcErrorView {
                                code: INVALID_PARAMS,
                                message: "target must be a string"@,
                            },
                        )
                    } else {
                        Ok(
                            ToolCallView {
                                limit: match limit {
                                    Some(limit) => Some(saturated(limit.unsigned()->0)),
                                    None => None,
                                },
                                target: match target {
                                    Some(target) => target.text(),
                                    None => None,
                                },
                            },
                        )
                    }
                },
                _ => Err(RpcErrorView { code: INVALID_PARAMS, message: "Missing tool name"@ }),
            }
        },
    }
}

fn refusal(code: i64, message: &str) -> (error: RpcError)
    ensures
        error@ == (RpcErrorView { code, message: message@ }),
{
    RpcError { code, message: copy_text(message) }
}

/// Reads the parameters of `tools/call`.
pub fn plan_tools_call(params: &Option<serde_json::Value>) -> (plan: Result<ToolCall, RpcError>)
    ensures
        match plan {
            Ok(call) => tool_call_of(optional_json_of(*params)) == Ok::<ToolCallView, RpcErrorView>(
                call@,
            ),
            Err(error) => tool_call_of(optional_json_of(*params)) == Err::<
                ToolCallView,
                RpcErrorView,
            >(error@),
        },
{
    let params = match params {
        Some(params) => params,
        None => { return Err(refusal(INVALID_PARAMS, "Missing params")); },
    };
    if !value_is_object(params) {
        return Err(refusal(INVALID_PARAMS, "params must be an object"));
    }
    let name = match text_member(params, "name") {
        Some(name) => name,
        None => { return Err(refusal(INVALID_PARAMS, "Missing tool name")); },
    };
    if !same_text(name.as_str(), APEX_LOGS_SYNC_TOOL) {
        return Err(refusal(METHOD_NOT_FOUND, "Unknown tool"));
    }
    let arguments = value_get(params, "arguments");
    let limit_member = match arguments {
        Some(arguments) => value_get(arguments, "limit"),
        None => None,
    };
    let target_member = match arguments {
        Some(arguments) => value_get(arguments, "target"),
        None => None,
    };
    let limit = match limit_member {
        Some(member) => match value_as_u64(member) {
            Some(n) => Some(
                if n > u32::MAX as u64 {
                    u32::MAX
                } else {
                    n as u32
                },
            ),
            None => { return Err(refusal(INVALID_PARAMS, "limit must be a number")); },
        },
        None => None,
    };
    let target = match target_member {
        Some(member) => match value_as_str(member) {
            Some(text) => Some(copy_text(text)),
            None => { return Err(refusal(INVALID_PARAMS, "target must be a string")); },
        },
        None => None,
    };
    Ok(ToolCall { limit, target })
}

/// What answers `initialize`: the protocol version that the request named
/// as its `jsonrpc`, or the server's own, what the server can do and who it
/// is.
pub open spec fn initialize_result(jsonrpc: Option<Seq<char>>) -> Json {
    Json::object().with(
        "protocolVersion"@,
        Json::Text(
            match jsonrpc {
                Some(version) => version,
                None => PROTOCOL_VERSION@,
            },
        ),
    ).with(
        "capabilities"@,
        Json::object().with("tools"@, Json::object().with("listChanged"@, Json::Bool(false))),
    ).with(
        "serverInfo"@,
        Json::object().with("name"@, Json::Text(SERVER_NAME@)).with(
            "version"@,
            Json::Text(SERVER_VERSION@),
        ),
    )
}

fn build_initialize_result(jsonrpc: &Option<String>) -> (value: serde_json::Value)
    ensures
        json_of(value) == initialize_result(optional_text(*jsonrpc)),
{
    let mut tools = value_object();
    set_bool(&mut tools, "listChanged", false);
    let mut capabilities = value_object();
    set_member(&mut capabilities, "tools", tools);
    let mut server = value_object();
    set_text(&mut server, "name", SERVER_NAME);
    set_text(&mut server, "version", SERVER_VERSION);
    let mut value = value_object();
    match jsonrpc {
        Some(version) => set_text(&mut value, "protocolVersion", version.as_str()),
        None => set_text(&mut value, "protocolVersion", PROTOCOL_VERSION),
    }
    set_member(&mut value, "capabilities", capabilities);
    set_member(&mut value, "serverInfo", server);
    value
}

/// What becomes of a request.
#[derive(Debug)]
pub enum Route {
    /// No answer: the request was a notification.
    Silent,
    /// This answer.
    Reply(Response),
    /// A sync, whose outcome answers `id`.
    Sync { id: serde_json::Value, call: ToolCall },
}

pub enum RouteView {
    Silent,
    Reply(ResponseView),
    Sync { id: Json, call: ToolCallView },
}

impl View for Route {
    type V = RouteView;

    open spec fn view(&self) -> RouteView {
        match self {
            Route::Silent => RouteView::Silent,
            Route::Reply(response) => RouteView::Reply(response@),
            Route::Sync { id, call } => RouteView::Sync { id: json_of(*id), call: call@ },
        }
    }
}

/// What becomes of a request. Without an id it gets no answer, whatever it
/// asks. `initialize` and `tools/list` get their fixed results. `tools/call`
/// gets the error that its parameters earn, and a sync only where they earn
/// none. Any other method is not found.
pub open spec fn route_of(request: RequestView) -> RouteView {
    match request.id {
        None => RouteView::Silent,
        Some(id) => if request.method == "initialize"@ {
            RouteView::Reply(ResponseView::ok(id, initialize_result(request.jsonrpc)))
        } else if request.method == "tools/list"@ {
            RouteView::Reply(ResponseView::ok(id, tools_list()))
        } else if request.method == "tools/call"@ {
            match tool_call_of(request.params) {
                Ok(call) => RouteView::Sync { id, call },
                Err(error) => RouteView::Reply(ResponseView::error(id, error.code, error.message)),
            }
        } else {
            RouteView::Reply(ResponseView::error(id, METHOD_NOT_FOUND, "Method not found"@))
        },
    }
}

/// Decides what becomes of a request.
pub fn route(request: Request) -> (decision: Route)
    ensures
        decision@ == route_of(request@),
{
    let id = match request.id {
        Some(id) => id,
        None => { return Route::Silent; },
    };
    let method = request.method.as_str();
    if same_text(method, "initialize") {
        Route::Reply(Response::ok(id, build_initialize_result(&request.jsonrpc)))
    } else if same_text(method, "tools/list") {
        Route::Reply(Response::ok(id, list_tools()))
    } else if same_text(method, "tools/call") {
        match plan_tools_call(&request.params) {
            Ok(call) => Route::Sync { id, call },
            Err(error) => Route::Reply(Response::error(id, error.code, error.message.as_str())),
        }
    } else {
        Route::Reply(Response::error(id, METHOD_NOT_FOUND, "Method not found"))
    }
}

/// The result of a tool call: one piece of text, and whether it tells of a
/// failure.
pub open spec fn tool_reply(text: Seq<char>, is_error: bool) -> Json {
    Json::object().with(
        "content"@,
        Json::Array(
            seq![Json::object().with("type"@, Json::Text("text"@)).with("text"@, Json::Text(text))],
        ),
    ).with("isError"@, Json::Bool(is_error))
}

/// The response that answers `id` with the result of a tool call.
pub fn tool_response(id: serde_json::Value, text: &str, is_error: bool) -> (response: Response)
    ensures
        response@ == ResponseView::ok(json_of(id), tool_reply(text@, is_error)),
{
    let mut piece = value_object();
    set_text(&mut piece, "type", "text");
    set_text(&mut piece, "text", text);
    let mut content: Vec<serde_json::Value> = Vec::new();
    content.push(piece);
    assert(jsons_of(content@) =~= seq![
        Json::object().with("type"@, Json::Text("text"@)).with("text"@, Json::Text(text@)),
    ]);
    let mut result = value_object();
    set_member(&mut result, "content", value_array(content));
    set_bool(&mut result, "isError", is_error);
    Response::ok(id, result)
}

/// The text of a tool result that carries a payload: the payload's JSON,
/// or the fixed text where that cannot be written.
pub open spec fn payload_text(payload: Json) -> Seq<char> {
    match json_printing(payload) {
        Ok(text) => text,
        Err(_) => UNWRITTEN_PAYLOAD@,
    }
}

/// The response that answers `id` with a payload as the text of a tool
/// result.
pub fn tool_result(id: serde_json::Value, payload: &serde_json::Value, is_error: bool) -> (response:
    Response)
    ensures
        response@ == ResponseView::ok(
            json_of(id),
            tool_reply(payload_text(json_of(*payload)), is_error),
        ),
{
    match write_value(payload) {
        Ok(text) => tool_response(id, text.as_str(), is_error),
        Err(_) => tool_response(id, UNWRITTEN_PAYLOAD, is_error),
    }
}

/// The response that answers `id` with the outcome of a sync: a tool result
/// whose text is the report, marked as a failure where it is an error
/// report. Neither is an error of the protocol.
pub open spec fn sync_reply(
    id: Json,
    outcome: Result<SyncOutputView, ErrorOutputView>,
) -> ResponseView {
    match outcome {
        Ok(report) => ResponseView::ok(id, tool_reply(payload_text(report.to_json()), false)),
        Err(report) => ResponseView::ok(id, tool_reply(payload_text(report.to_json()), true)),
    }
}

/// Whether a response answers `id` with the outcome of some sync.
pub open spec fn answers_sync(response: ResponseView, id: Json) -> bool {
    exists|outcome: Result<SyncOutputView, ErrorOutputView>|
        response == #[trigger] sync_reply(id, outcome)
}

/// The response that answers `id` with the outcome of a sync.
pub fn sync_response(id: serde_json::Value, outcome: Result<SyncOutput, ErrorOutput>) -> (response:
    Response)
    ensures
        response@ == sync_reply(json_of(id), outcome_view(outcome)),
        answers_sync(response@, json_of(id)),
{
    match outcome {
        Ok(report) => {
            let payload = report.to_value();
            tool_result(id, &payload, false)
        },
        Err(report) => {
            let payload = report.to_value();
            tool_result(id, &payload, true)
        },
    }
}

/// Answers `tools/call`: with the error that the parameters earn, without
/// calling the provider; else with the outcome of the provider's sync as a
/// tool result.
pub fn handle_tools_call<P: LogsSyncProvider>(
    id: serde_json::Value,
    params: Option<serde_json::Value>,
    provider: &P,
) -> (response: Response)
    ensures
        match tool_call_of(optional_json_of(params)) {
            Ok(_) => answers_sync(response@, json_of(id)),
            Err(error) => response@ == ResponseView::error(json_of(id), error.code, error.message),
        },
{
    match plan_tools_call(&params) {
        Ok(call) => sync_response(id, provider.logs_sync(call.limit, call.target)),
        Err(error) => Response::error(id, error.code, error.message.as_str()),
    }
}

/// Answers a request, or does not where it was a notification. The
/// provider is called only where the request is routed to a sync.
pub fn handle_request<P: LogsSyncProvider>(request: Request, provider: &P) -> (response: Option<
    Response,
>)
    ensures
        match route_of(request@) {
            RouteView::Silent => response is None,
            RouteView::Reply(reply) => response matches Some(given) && given@ == reply,
            RouteView::Sync { id, .. } => response matches Some(given) && answers_sync(given@, id),
        },
{
    match route(request) {
        Route::Silent => None,
        Route::Reply(reply) => Some(reply),
        Route::Sync { id, call } => {
            let outcome = provider.logs_sync(call.limit, call.target);
            let given = sync_response(id, outcome);
            Some(given)
        },
    }
}

/// A request without an id gets no answer, whatever its method and its
/// parameters.
pub proof fn lemma_notification_gets_no_answer(request: RequestView)
    requires
        request.id is None,
    ensures
        route_of(request) == RouteView::Silent,
{
}

/// A call of the tool whose `limit` is no integer that fits `u64` is
/// answered with the code for parameters that cannot be used, and is not
/// routed to a sync.
pub proof fn lemma_bad_limit_is_refused(request: RequestView, arguments: Json)
    requires
        request.id is Some,
        request.method == "tools/call"@,
        request.params is Some,
        request.params->0 is Object,
        request.params->0.field("name"@) == Some(Json::Text(APEX_LOGS_SYNC_TOOL@)),
        request.params->0.field("arguments"@) == Some(arguments),
        arguments.field("limit"@) is Some,
        arguments.field("limit"@)->0.unsigned() is None,
    ensures
        route_of(request) == RouteView::Reply(
            ResponseView::error(request.id->0, INVALID_PARAMS, "limit must be a number"@),
        ),
        INVALID_PARAMS == -32602,
{
    reveal_strlit("tools/call");
    reveal_strlit("initialize");
    reveal_strlit("tools/list");
    assert("tools/call"@[0] != "initialize"@[0]);
    assert("tools/call"@[6] != "tools/list"@[6]);
}

} // verus!
