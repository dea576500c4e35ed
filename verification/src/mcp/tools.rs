//! The one tool that the server offers.

use crate::json::{
    json_of, jsons_of, set_member, set_text, set_unsigned, value_array, value_null, value_object,
    Json,
};
use vstd::prelude::*;

verus! {

/// The name of the tool.
pub const APEX_LOGS_SYNC_TOOL: &'static str = "apex_logs_sync";

/// What the tool takes: an optional `limit`, a number from 1 to 200, and an
/// optional `target`, a string.
pub open spec fn input_schema() -> Json {
    Json::object().with("type"@, Json::Text("object"@)).with(
        "properties"@,
        Json::object().with(
            "limit"@,
            Json::object().with("type"@, Json::Text("number"@)).with(
                "description"@,
                Json::Text("Max logs to fetch (1-200)."@),
            ).with("minimum"@, Json::of_int(1)).with("maximum"@, Json::of_int(200)),
        ).with(
            "target"@,
            Json::object().with("type"@, Json::Text("string"@)).with(
                "description"@,
                Json::Text("Org username or alias."@),
            ),
        ),
    )
}

/// The description of the tool.
pub open spec fn tool_descriptor() -> Json {
    Json::object().with("name"@, Json::Text(APEX_LOGS_SYNC_TOOL@)).with(
        "title"@,
        Json::Text("Sync Apex Logs"@),
    ).with("description"@, Json::Text("Sync Apex logs to the local apexlogs directory."@)).with(
        "inputSchema"@,
        input_schema(),
    )
}

/// The list of tools: the one tool, and no further page.
pub open spec fn tools_list() -> Json {
    Json::object().with("tools"@, Json::Array(seq![tool_descriptor()])).with(
        "nextCursor"@,
        Json::Null,
    )
}

fn build_input_schema() -> (value: serde_json::Value)
    ensures
        json_of(value) == input_schema(),
{
    let mut limit = value_object();
    set_text(&mut limit, "type", "number");
    set_text(&mut limit, "description", "Max logs to fetch (1-200).");
    set_unsigned(&mut limit, "minimum", 1);
    set_unsigned(&mut limit, "maximum", 200);
    let mut target = value_object();
    set_text(&mut target, "type", "string");
    set_text(&mut target, "description", "Org username or alias.");
    let mut properties = value_object();
    set_member(&mut properties, "limit", limit);
    set_member(&mut properties, "target", target);
    let mut schema = value_object();
    set_text(&mut schema, "type", "object");
    set_member(&mut schema, "properties", properties);
    schema
}

/// The list of tools.
pub fn list_tools() -> (value: serde_json::Value)
    ensures
        json_of(value) == tools_list(),
{
    let mut tool = value_object();
    set_text(&mut tool, "name", APEX_LOGS_SYNC_TOOL);
    set_text(&mut tool, "title", "Sync Apex Logs");
    set_text(&mut tool, "description", "Sync Apex logs to the local apexlogs directory.");
    set_member(&mut tool, "inputSchema", build_input_schema());
    let mut tools: Vec<serde_json::Value> = Vec::new();
    tools.push(tool);
    assert(jsons_of(tools@) =~= seq![tool_descriptor()]);
    let mut list = value_object();
    set_member(&mut list, "tools", value_array(tools));
    set_member(&mut list, "nextCursor", value_null());
    list
}

} // verus!
