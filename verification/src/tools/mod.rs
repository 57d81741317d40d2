//! Tool descriptions and the tool registry.

pub mod manager;
pub mod tool;
