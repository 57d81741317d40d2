use rs_fast_mcp::error::FastMCPError;
use rs_fast_mcp::mcp::types::JsonValue;
use rs_fast_mcp::server::proxy::MountedServer;
use rs_fast_mcp::tools::tool::ToolKind;

#[test]
fn local_names_carry_the_prefix() {
    let m = MountedServer::new("remote");
    assert_eq!(m.prefix(), "remote");
    assert_eq!(m.local_name("search"), "remote_search");
    let plain = MountedServer::new("");
    assert_eq!(plain.local_name("search"), "search");
}

#[test]
fn proxy_tool_mirrors_the_remote_tool() {
    let m = MountedServer::new("r");
    let t = m.create_proxy_tool(
        "echo".to_string(),
        Some("Echo".to_string()),
        Some("Echoes".to_string()),
        JsonValue::Object(vec![]),
        None,
    );
    assert_eq!(t.name, "r_echo");
    assert_eq!(t.title.as_deref(), Some("Echo"));
    assert_eq!(t.description.as_deref(), Some("Echoes"));
    assert!(t.enabled);
    assert!(t.key.is_none() && t.meta.is_none());
    assert_eq!(t.tags.len(), 0);
    match t.data {
        ToolKind::Function(f) => {
            assert_eq!(f.name, "echo");
            assert!(f.description.is_none());
            assert!(f.compiled_schema.is_none());
        },
        _ => panic!("expected a function tool"),
    }
}

#[test]
fn prompt_result_messages() {
    let msgs = JsonValue::Array(vec![JsonValue::Str("hi".to_string())]);
    let result = JsonValue::Object(vec![("messages".to_string(), msgs)]);
    match MountedServer::prompt_messages(&result) {
        Ok(JsonValue::Array(items)) => assert_eq!(items.len(), 1),
        _ => panic!("expected the messages"),
    }
    match MountedServer::prompt_messages(&JsonValue::Object(vec![])) {
        Err(FastMCPError::InvalidRequest(m)) => assert_eq!(m, "Missing messages in prompt result"),
        _ => panic!("expected an invalid request"),
    }
}
