//! Verified core of an MCP server that exposes Docker operations as tools.
//!
//! The library holds the decisions of the server: which JSON-RPC method is
//! answered how, which tools exist and what arguments they take, how a tool
//! call is turned into one Docker operation, and how the replies of the
//! Docker daemon are folded into the text that goes back to the client.
//! Talking to the daemon and to stdin/stdout is left to the program around it.

pub mod text;
pub mod docker;
pub mod mcp;

