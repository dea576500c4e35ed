//! The JSON-RPC envelope: requests as they are read, responses as they are
//! written.

use crate::json::{
    json_of, optional_json_of, optional_text, set_member, set_signed, set_text,
    value_as_str, value_copy, value_get, value_is_null, value_is_object, value_object, Json,
};
use crate::text::copy_text;
use vstd::prelude::*;

verus! {

/// The version that every response names.
pub const JSONRPC_VERSION: &'static str = "2.0";

/// A request. One without an id is a notification.
#[derive(Debug)]
pub struct Request {
    pub jsonrpc: Option<String>,
    pub id: Option<serde_json::Value>,
    pub method: String,
    pub params: Option<serde_json::Value>,
}

pub struct RequestView {
    pub jsonrpc: Option<Seq<char>>,
    pub id: Option<Json>,
    pub method: Seq<char>,
    pub params: Option<Json>,
}

impl View for Request {
    type V = RequestView;

    open spec fn view(&self) -> RequestView {
        RequestView {
            jsonrpc: optional_text(self.jsonrpc),
            id: optional_json_of(self.id),
            method: self.method@,
            params: optional_json_of(self.params),
        }
    }
}

/// The error of a response.
#[derive(Debug, Clone)]
pub struct RpcError {
    pub code: i64,
    pub message: String,
}

pub struct RpcErrorView {
    pub code: i64,
    pub message: Seq<char>,
}

impl View for RpcError {
    type V = RpcErrorView;

    open spec fn view(&self) -> RpcErrorView {
        RpcErrorView { code: self.code, message: self.message@ }
    }
}

impl RpcErrorView {
    pub open spec fn to_json(self) -> Json {
        Json::object().with("code"@, Json::of_int(self.code as int)).with(
            "message"@,
            Json::Text(self.message),
        )
    }
}

/// A response: it holds a result or an error.
#[derive(Debug)]
pub struct Response {
    pub jsonrpc: &'static str,
    pub id: serde_json::Value,
    pub result: Option<serde_json::Value>,
    pub error: Option<RpcError>,
}

pub struct ResponseView {
    pub jsonrpc: Seq<char>,
    pub id: Json,
    pub result: Option<Json>,
    pub error: Option<RpcErrorView>,
}

impl View for Response {
    type V = ResponseView;

    open spec fn view(&self) -> ResponseView {
        ResponseView {
            jsonrpc: self.jsonrpc@,
            id: json_of(self.id),
            result: optional_json_of(self.result),
            error: match self.error {
                Some(error) => Some(error@),
                None => None,
            },
        }
    }
}

impl ResponseView {
    /// The response that answers `id` with a result.
    pub open spec fn ok(id: Json, result: Json) -> ResponseView {
        ResponseView { jsonrpc: JSONRPC_VERSION@, id, result: Some(result), error: None }
    }

    /// The response that answers `id` with an error.
    pub open spec fn error(id: Json, code: i64, message: Seq<char>) -> ResponseView {
        ResponseView {
            jsonrpc: JSONRPC_VERSION@,
            id,
            result: None,
            error: Some(RpcErrorView { code, message }),
        }
    }

    /// The response as a JSON object. A result or an error that is not
    /// there has no member.
    pub open spec fn to_json(self) -> Json {
        let head = Json::object().with("jsonrpc"@, Json::Text(self.jsonrpc)).with("id"@, self.id);
        let body = match self.result {
            Some(result) => head.with("result"@, result),
            None => head,
        };
        match self.error {
            Some(error) => body.with("error"@, error.to_json()),
            None => body,
        }
    }
}

impl Response {
    /// The response that answers `id` with a result.
    pub fn ok(id: serde_json::Value, result: serde_json::Value) -> (response: Response)
        ensures
            response@ == ResponseView::ok(json_of(id), json_of(result)),
    {
        Response { jsonrpc: JSONRPC_VERSION, id, result: Some(result), error: None }
    }

    /// The response that answers `id` with an error.
    pub fn error(id: serde_json::Value, code: i64, message: &str) -> (response: Response)
        ensures
            response@ == ResponseView::error(json_of(id), code, message@),
    {
        Response {
            jsonrpc: JSONRPC_VERSION,
            id,
            result: None,
            error: Some(RpcError { code, message: copy_text(message) }),
        }
    }

    /// The response as a JSON object.
    pub fn to_value(&self) -> (value: serde_json::Value)
        ensures
            json_of(value) == self@.to_json(),
    {
        let mut value = value_object();
        set_text(&mut value, "jsonrpc", self.jsonrpc);
        set_member(&mut value, "id", value_copy(&self.id));
        if let Some(result) = &self.result {
            set_member(&mut value, "result", value_copy(result));
        }
        if let Some(error) = &self.error {
            let mut member = value_object();
            set_signed(&mut member, "code", error.code);
            set_text(&mut member, "message", error.message.as_str());
            set_member(&mut value, "error", member);
        }
        value
    }
}

/// A member that may be missing: `null` counts as missing.
pub open spec fn optional_field(json: Json, key: Seq<char>) -> Option<Json> {
    match json.field(key) {
        Some(Json::Null) => None,
        other => other,
    }
}

/// The request that a JSON value stands for, or what is wrong with it. It
/// has to be an object with a string `method`; `jsonrpc` is a string where
/// it is there; `id` and `params` are whatever is there. Members of other
/// names are passed over.
pub open spec fn request_of_json(json: Json) -> Result<RequestView, Seq<char>> {
    if !(json is Object) {
        Err("request must be an object"@)
    } else if optional_field(json, "jsonrpc"@) is Some && optional_field(json, "jsonrpc"@)->0.text()
        is None {
        Err("jsonrpc must be a string"@)
    } else if json.field("method"@) is None {
        Err("missing field `method`"@)
    } else if json.field("method"@)->0.text() is None {
        Err("method must be a string"@)
    } else {
        Ok(
            RequestView {
                jsonrpc: match optional_field(json, "jsonrpc"@) {
                    Some(version) => version.text(),
                    None => None,
                },
                id: optional_field(json, "id"@),
                method: json.field("method"@)->0.text()->0,
                params: optional_field(json, "params"@),
            },
        )
    }
}

fn optional_member(value: &serde_json::Value, key: &str) -> (member: Option<serde_json::Value>)
    ensures
        optional_json_of(member) == optional_field(json_of(*value), key@),
{
    match value_get(value, key) {
        Some(member) => {
            if value_is_null(member) {
                None
            } else {
                Some(value_copy(member))
            }
        },
        None => None,
    }
}

impl Request {
    /// Reads a request out of a JSON value.
    pub fn from_value(value: &serde_json::Value) -> (request: Result<Request, String>)
        ensures
            match request {
                Ok(request) => request_of_json(json_of(*value)) == Ok::<RequestView, Seq<char>>(
                    request@,
                ),
                Err(message) => request_of_json(json_of(*value)) == Err::<RequestView, Seq<char>>(
                    message@,
                ),
            },
    {
        if !value_is_object(value) {
            return Err(copy_text("request must be an object"));
        }
        let jsonrpc = match optional_member(value, "jsonrpc") {
            Some(version) => match value_as_str(&version) {
                Some(text) => Some(copy_text(text)),
                None => { return Err(copy_text("jsonrpc must be a string")); },
            },
            None => None,
        };
        let method = match value_get(value, "method") {
            Some(member) => match value_as_str(member) {
                Some(text) => copy_text(text),
                None => { return Err(copy_text("method must be a string")); },
            },
            None => { return Err(copy_text("missing field `method`")); },
        };
        let id = optional_member(value, "id");
        let params = optional_member(value, "params");
        Ok(Request { jsonrpc, id, method, params })
    }
}

} // verus!
