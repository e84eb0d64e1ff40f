//! MCP server registry: server registration, tool discovery, allow-lists,
//! health checks and an audit trail, with their contracts proved by Verus.

pub mod outside;
pub mod text;
pub mod types;
pub mod tools;
pub mod state;
pub mod transitions;
pub mod store;
pub mod inputs;
pub mod laws;
