use dashmap::DashMap;
use rs_fast_mcp::mcp::types::JsonValue;
use rs_fast_mcp::server::context::Context;
use std::sync::Arc;

#[test]
fn test_new_defaults() {
    let ctx = Context::new(
        Some("req-1".into()),
        Some("client-1".into()),
        Some("sess-1".into()),
    );
    assert_eq!(ctx.request_id.as_deref(), Some("req-1"));
    assert_eq!(ctx.client_id.as_deref(), Some("client-1"));
    assert_eq!(ctx.session_id.as_deref(), Some("sess-1"));
    assert_eq!(ctx.arguments.len(), 0);
}

#[test]
fn test_default_has_none_ids() {
    let ctx = Context::default();
    assert!(ctx.request_id.is_none());
    assert!(ctx.client_id.is_none());
    assert!(ctx.session_id.is_none());
}

#[test]
fn test_state_get_set() {
    let mut ctx = Context::default();
    assert!(ctx.get_state("counter").is_none());
    ctx.set_state("counter".into(), JsonValue::Number("42".to_string()));
    match ctx.get_state("counter") {
        Some(JsonValue::Number(n)) => assert_eq!(n, "42"),
        _ => panic!("expected the stored number"),
    }
}

#[test]
fn test_with_session_data_shared() {
    let shared = Arc::new(DashMap::new());
    shared.insert("shared_key".to_string(), JsonValue::Str("shared_value".to_string()));

    let ctx = Context::default().with_session_data(shared.clone());
    match ctx.session_data.get("shared_key").map(|v| v.clone()) {
        Some(JsonValue::Str(s)) => assert_eq!(s, "shared_value"),
        _ => panic!("expected the shared value"),
    }
}

#[test]
fn list_change_flags() {
    let mut ctx = Context::default();
    assert!(!ctx.tools_changed && !ctx.resources_changed && !ctx.prompts_changed);
    ctx.report_tool_list_changed();
    assert!(ctx.tools_changed && !ctx.resources_changed && !ctx.prompts_changed);
    ctx.report_resource_list_changed();
    ctx.report_prompt_list_changed();
    assert!(ctx.tools_changed && ctx.resources_changed && ctx.prompts_changed);
}

#[test]
fn state_overwrite_keeps_last_value() {
    let mut ctx = Context::default();
    ctx.set_state("k".into(), JsonValue::Bool(true));
    ctx.set_state("k".into(), JsonValue::Bool(false));
    ctx.set_state("other".into(), JsonValue::Null);
    assert!(matches!(ctx.get_state("k"), Some(JsonValue::Bool(false))));
    assert!(matches!(ctx.get_state("other"), Some(JsonValue::Null)));
}
