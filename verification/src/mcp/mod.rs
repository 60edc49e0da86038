//! The MCP side of the server: the tool catalogue, tool calls and JSON-RPC routing.

pub mod tools;
pub mod handlers;
pub mod rpc;
pub mod laws;
pub mod call_laws;
