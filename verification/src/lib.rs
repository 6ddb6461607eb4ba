//! Verified core of an MCP server for Google Photos: OAuth state handling,
//! token bookkeeping, request planning for the Photos APIs and the JSON-RPC
//! tool dispatch.

pub mod text;
pub mod json;
pub mod state;
pub mod urls;
pub mod config;
pub mod photos;
pub mod auth;
pub mod mcp;
