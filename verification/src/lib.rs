//! Retrieval of Apex execution logs from a Salesforce org: request
//! construction, authentication fallback, the sync run as a state machine
//! over the outcomes of its outside actions, and the JSON-RPC dispatcher
//! that offers the sync as a tool.

pub mod auth;
pub mod commands;
pub mod http;
pub mod json;
pub mod mcp;
pub mod output;
pub mod sfdx_project;
pub mod text;
