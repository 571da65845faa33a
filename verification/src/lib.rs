//! Verified core of an MCP (Model Context Protocol) server: the JSON-RPC
//! routing of requests, the tool and resource handlers' decisions, and the
//! values they answer with.

pub mod json;
pub mod text;
pub mod codec;
pub mod tools;
pub mod resources;
pub mod server;
pub mod transport;
