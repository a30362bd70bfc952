//! What the MCP tools take and how their answers read.

pub mod tools;
