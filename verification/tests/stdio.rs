use rs_fast_mcp::server::transport::http::{internal_error_message, on_message, MessageAction};
use rs_fast_mcp::error::FastMCPError;
use rs_fast_mcp::mcp::types::{JsonRpcMessage, JsonRpcNotification, JsonRpcRequest, JsonRpcResponse, JsonValue, RequestId};
use rs_fast_mcp::server::transport::stdio::{LineAction, StdioTransport};

fn ping(id: i64) -> JsonRpcRequest {
    JsonRpcRequest {
        jsonrpc: "2.0".to_string(),
        id: RequestId::Int(id),
        method: "ping".to_string(),
        params: None,
        transport_metadata: None,
    }
}

#[test]
fn request_line_is_dispatched() {
    let _t = StdioTransport::new();
    match StdioTransport::on_line(Ok(JsonRpcMessage::Request(ping(1))), true) {
        LineAction::Dispatch(req) => {
            assert_eq!(req.method, "ping");
            assert!(matches!(req.id, RequestId::Int(1)));
        },
        _ => panic!("expected dispatch"),
    }
}

#[test]
fn notification_line_is_delivered() {
    let n = JsonRpcNotification::new("test/method".to_string(), None);
    match StdioTransport::on_line(Ok(JsonRpcMessage::Notification(n)), true) {
        LineAction::Notify(n) => assert_eq!(n.method, "test/method"),
        _ => panic!("expected notify"),
    }
}

#[test]
fn response_line_is_skipped() {
    let r = JsonRpcResponse::new(RequestId::Int(3), JsonValue::Null);
    assert!(matches!(StdioTransport::on_line(Ok(JsonRpcMessage::Response(r)), true), LineAction::Skip));
}

#[test]
fn unparsable_line_gets_parse_error_or_is_skipped() {
    match StdioTransport::on_line(Err("bad".to_string()), true) {
        LineAction::Reply(JsonRpcMessage::Error(e)) => {
            assert!(matches!(e.id, RequestId::Int(0)));
            assert_eq!(e.error.code, -32700);
            assert_eq!(e.error.message, "Parse error");
            assert_eq!(e.jsonrpc, "2.0");
        },
        _ => panic!("expected a parse error"),
    }
    assert!(matches!(StdioTransport::on_line(Err("bad".to_string()), false), LineAction::Skip));
}

#[test]
fn handler_outcome_is_answered() {
    let ok = JsonRpcResponse::new(RequestId::Int(1), JsonValue::Null);
    match StdioTransport::on_handler_result(RequestId::Int(1), Ok(ok)) {
        JsonRpcMessage::Response(r) => assert!(matches!(r.id, RequestId::Int(1))),
        _ => panic!("expected the response"),
    }
    let err = FastMCPError::InvalidRequest("Method not found".to_string());
    match StdioTransport::on_handler_result(RequestId::Str("a".to_string()), Err(err)) {
        JsonRpcMessage::Error(e) => {
            assert!(matches!(e.id, RequestId::Str(ref s) if s == "a"));
            assert_eq!(e.error.code, -32603);
            assert_eq!(e.error.message, "Internal error: Method not found");
        },
        _ => panic!("expected an error"),
    }
}

#[test]
fn http_request_carries_headers_and_others_are_broadcast() {
    let headers = vec![
        ("authorization".to_string(), "Bearer a".to_string()),
        ("x".to_string(), "1".to_string()),
        ("x".to_string(), "2".to_string()),
    ];
    match on_message(JsonRpcMessage::Request(ping(5)), headers) {
        MessageAction::Dispatch(req) => {
            let meta = req.transport_metadata.expect("headers attached");
            assert_eq!(meta.get("authorization").map(|s| s.as_str()), Some("Bearer a"));
            assert_eq!(meta.get("x").map(|s| s.as_str()), Some("2"));
            assert_eq!(meta.len(), 2);
            assert_eq!(req.method, "ping");
        },
        _ => panic!("expected dispatch"),
    }
    let n = JsonRpcNotification::new("note".to_string(), None);
    assert!(matches!(
        on_message(JsonRpcMessage::Notification(n), vec![]),
        MessageAction::Broadcast(JsonRpcMessage::Notification(_))
    ));
    let e = FastMCPError::Message("oops".to_string());
    assert_eq!(internal_error_message(&e), "Internal error: oops");
}
