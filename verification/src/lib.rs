//! Verified core of the Matrix MCP server: configuration, the client cache,
//! identifier checks, message processing and the text of every tool's answer.

pub mod auth;
pub mod config;
pub mod error;
pub mod matrix;
pub mod text;
pub mod json;
pub mod mcp;
pub mod tools;
