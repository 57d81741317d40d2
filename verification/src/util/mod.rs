//! Shared utility modules.

pub mod component;
pub mod concurrent;
pub mod json_schema;
pub mod json_text;
pub mod string_map;
pub mod string_set;
pub mod text;
pub mod types;
pub mod web;
