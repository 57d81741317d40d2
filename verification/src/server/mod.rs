//! MCP server logic: routing, filtering, authentication checks and
//! component naming.

pub mod auth;
pub mod context;
pub mod engine;
pub mod middleware;
pub mod providers;
pub mod proxy;
pub mod strategy;
pub mod tasks;
pub mod transport;
pub mod visibility;
