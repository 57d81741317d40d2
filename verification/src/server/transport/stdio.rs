//! The line-oriented stdio transport: one JSON-RPC message per line.

use vstd::prelude::*;
use crate::error::FastMCPError;
use crate::mcp::types::{JsonRpcError, JsonRpcMessage, JsonRpcNotification, JsonRpcRequest, JsonRpcResponse, RequestId};
use crate::util::text::owned;

verus! {

/// JSON-RPC code of a line that is not a valid message.
pub const PARSE_ERROR: i64 = -32700;

/// JSON-RPC code of a request whose handler failed.
pub const INTERNAL_ERROR: i64 = -32603;

/// Reads JSON-RPC messages from stdin and writes replies to stdout.
pub struct StdioTransport {}

/// What the transport does with one line of input.
pub enum LineAction {
    /// Hand the request to the handler; its outcome is then answered.
    Dispatch(JsonRpcRequest),
    /// Hand the notification to the handler; nothing is answered.
    Notify(JsonRpcNotification),
    /// Write this message, then go on reading.
    Reply(JsonRpcMessage),
    /// Nothing to do for this line.
    Skip,
}

/// The reply to a line that could not be parsed: a parse error for id 0.
pub open spec fn is_parse_error_reply(m: JsonRpcMessage) -> bool {
    m matches JsonRpcMessage::Error(e) && e.jsonrpc@ == "2.0"@ && e.id == RequestId::Int(0)
        && e.error.code == PARSE_ERROR && e.error.message@ == "Parse error"@ && e.error.data is None
}

impl StdioTransport {
    /// A stdio transport.
    pub fn new() -> (r: StdioTransport) {
        StdioTransport {  }
    }

    /// The action for one line, given what parsing it gave. Requests are
    /// dispatched and notifications delivered; other messages are skipped. A
    /// line that does not parse is answered with a parse error when
    /// `report_parse_errors` holds (the plain loop) and skipped otherwise (the
    /// loop that also forwards server notifications).
    pub fn on_line(parsed: Result<JsonRpcMessage, String>, report_parse_errors: bool) -> (r:
        LineAction)
        ensures
            match parsed {
                Ok(JsonRpcMessage::Request(req)) => r == LineAction::Dispatch(req),
                Ok(JsonRpcMessage::Notification(n)) => r == LineAction::Notify(n),
                Ok(_) => r is Skip,
                Err(_) => if report_parse_errors {
                    r matches LineAction::Reply(m) && is_parse_error_reply(m)
                } else {
                    r is Skip
                },
            },
    {
        match parsed {
            Ok(JsonRpcMessage::Request(req)) => LineAction::Dispatch(req),
            Ok(JsonRpcMessage::Notification(n)) => LineAction::Notify(n),
            Ok(_) => LineAction::Skip,
            Err(_) => if report_parse_errors {
                LineAction::Reply(
                    JsonRpcMessage::Error(JsonRpcError::new(RequestId::Int(0), PARSE_ERROR, "Parse error", None)),
                )
            } else {
                LineAction::Skip
            },
        }
    }

    /// The reply to a dispatched request: the handler's response, or an
    /// internal error for the request's id that carries the handler's message.
    pub fn on_handler_result(id: RequestId, result: Result<JsonRpcResponse, FastMCPError>) -> (r:
        JsonRpcMessage)
        ensures
            match result {
                Ok(resp) => r == JsonRpcMessage::Response(resp),
                Err(e) => r matches JsonRpcMessage::Error(err) && err.jsonrpc@ == "2.0"@ && err.id
                    == id && err.error.code == INTERNAL_ERROR && err.error.message@
                    == "Internal error: "@ + e.text() && err.error.data is None,
            },
    {
        match result {
            Ok(resp) => JsonRpcMessage::Response(resp),
            Err(e) => {
                let mut m = owned("Internal error: ");
                m.append(e.message().as_str());
                JsonRpcMessage::Error(JsonRpcError::new(id, INTERNAL_ERROR, m.as_str(), None))
            },
        }
    }
}

impl Default for StdioTransport {
    fn default() -> (r: StdioTransport) {
        StdioTransport::new()
    }
}

} // verus!
