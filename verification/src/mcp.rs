//! The sync as a tool of a JSON-RPC 2.0 server that reads one request per
//! line.

pub mod handlers;
pub mod protocol;
pub mod stdio;
pub mod tools;
