//! The library's error type.

use vstd::prelude::*;
use crate::mcp::types::JsonValue;

verus! {

/// Structured error details (code, message, optional data).
#[derive(Debug)]
pub struct ErrorData {
    pub code: Option<i64>,
    pub message: String,
    pub data: Option<JsonValue>,
}

/// Errors reported by the server.
#[derive(Debug)]
pub enum FastMCPError {
    /// A general failure with a message.
    Message(String),
    /// The request was malformed, unauthorised, or named something unknown.
    InvalidRequest(String),
    /// A resource could not be produced.
    Resource(ErrorData),
    /// A JSON (de)serialisation failure, with its message.
    Json(String),
    /// An I/O failure, with its message.
    StdIo(String),
}

impl FastMCPError {
    /// A general failure carrying `message`.
    pub fn new(message: String) -> (r: FastMCPError)
        ensures
            r == FastMCPError::Message(message),
    {
        FastMCPError::Message(message)
    }

    /// The message an error carries.
    pub open spec fn text(self) -> Seq<char> {
        match self {
            FastMCPError::Message(m) => m@,
            FastMCPError::InvalidRequest(m) => m@,
            FastMCPError::Resource(d) => d.message@,
            FastMCPError::Json(m) => m@,
            FastMCPError::StdIo(m) => m@,
        }
    }

    /// The message this error carries.
    pub fn message(&self) -> (r: String)
        ensures
            r@ == self.text(),
    {
        match self {
            FastMCPError::Message(m) => m.clone(),
            FastMCPError::InvalidRequest(m) => m.clone(),
            FastMCPError::Resource(d) => d.message.clone(),
            FastMCPError::Json(m) => m.clone(),
            FastMCPError::StdIo(m) => m.clone(),
        }
    }
}

} // verus!
