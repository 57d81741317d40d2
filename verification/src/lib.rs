//! Verified core of an MCP (Model Context Protocol) server framework.
//!
//! The library holds the decision logic of the server: component registries,
//! visibility filtering, request routing, authentication checks, naming
//! transforms and configuration parsing. Networking, async plumbing and
//! process I/O live in the companion application crate.

pub mod error;
pub mod mcp;
pub mod server;
pub mod settings;
pub mod tools;
pub mod util;
