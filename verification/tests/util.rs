use rs_fast_mcp::mcp::types::{JsonRpcRequest, RequestId};
use rs_fast_mcp::server::middleware::caching::CacheMiddleware;
use rs_fast_mcp::util::json_schema::{check_against_schema, SchemaCheck};
use rs_fast_mcp::mcp::types::JsonValue;
use rs_fast_mcp::tools::tool::{Tool, ToolKind};
use rs_fast_mcp::util::string_map::StringMap;
use rs_fast_mcp::util::string_set::StringSet;
use rs_fast_mcp::util::text::{parse_unsigned, strip_prefix, trim_end_matches_char, trim_start_matches, u64_to_decimal};

#[test]
fn decimal_text_and_back() {
    assert_eq!(u64_to_decimal(0), "0");
    assert_eq!(u64_to_decimal(1234567890), "1234567890");
    assert_eq!(u64_to_decimal(u64::MAX), "18446744073709551615");
    assert_eq!(parse_unsigned("8080", 65535), Some(8080));
    assert_eq!(parse_unsigned("+7", 65535), Some(7));
    assert_eq!(parse_unsigned("65536", 65535), None);
    assert_eq!(parse_unsigned("", 65535), None);
    assert_eq!(parse_unsigned("12a", 65535), None);
    assert_eq!(parse_unsigned("18446744073709551615", u64::MAX), Some(u64::MAX));
    assert_eq!(parse_unsigned("18446744073709551616", u64::MAX), None);
}

#[test]
fn prefix_and_trim_helpers() {
    assert_eq!(strip_prefix("api_tool", "api_"), Some("tool".to_string()));
    assert_eq!(strip_prefix("tool", "api_"), None);
    assert_eq!(trim_end_matches_char("a///", '/'), "a");
    assert_eq!(trim_start_matches("https://https://x", "https://"), "x");
}

#[test]
fn string_set_keeps_each_element_once() {
    let mut s = StringSet::from_vec(vec!["a".to_string(), "b".to_string(), "a".to_string()]);
    assert_eq!(s.len(), 2);
    assert!(s.contains("a") && s.contains("b") && !s.contains("c"));
    s.insert("b".to_string());
    s.insert("c".to_string());
    assert_eq!(s.to_vec(), vec!["a".to_string(), "b".to_string(), "c".to_string()]);
    let mut t = StringSet::new();
    assert!(t.is_empty());
    t.extend(&s);
    assert_eq!(t.len(), 3);
}

#[test]
fn string_map_insert_overwrites() {
    let mut m = StringMap::new();
    m.insert("k".to_string(), "1".to_string());
    m.insert("j".to_string(), "2".to_string());
    m.insert("k".to_string(), "3".to_string());
    assert_eq!(m.len(), 2);
    assert_eq!(m.get("k").map(|s| s.as_str()), Some("3"));
    assert!(m.contains_key("j") && !m.contains_key("x"));
    let c = m.copy();
    assert_eq!(c.get("j").map(|s| s.as_str()), Some("2"));
}

#[test]
fn new_tool_and_parameters() {
    let t = Tool::new("greet", "Says hello").add_parameter("name", "string", "Who to greet");
    assert_eq!(t.name, "greet");
    assert_eq!(t.title.as_deref(), Some("greet"));
    match &t.data {
        ToolKind::Function(f) => {
            let props = match f.input_schema.get("properties") {
                Some(p) => p,
                None => panic!("expected properties"),
            };
            let param = props.get("name").expect("parameter added");
            assert_eq!(param.get_str("type").as_deref(), Some("string"));
            assert_eq!(param.get_str("description").as_deref(), Some("Who to greet"));
            assert!(matches!(f.input_schema.get("type"), Some(JsonValue::Str(s)) if s == "object"));
        },
        _ => panic!("expected a function tool"),
    }
}

fn params_key(params: JsonValue) -> String {
    let req = JsonRpcRequest {
        jsonrpc: "2.0".to_string(),
        id: RequestId::Int(1),
        method: "tools/call".to_string(),
        params: Some(params),
        transport_metadata: None,
    };
    CacheMiddleware::get_cache_key(&req).unwrap().1
}

#[test]
fn json_text_is_compact_and_escaped() {
    let v = JsonValue::Object(vec![
        ("a".to_string(), JsonValue::Array(vec![JsonValue::Number("1".to_string()), JsonValue::Null, JsonValue::Bool(true)])),
        ("b\"".to_string(), JsonValue::Str("line\nnext\t\\ \u{1}".to_string())),
        ("c".to_string(), JsonValue::Object(vec![])),
    ]);
    assert_eq!(params_key(v), "{\"a\":[1,null,true],\"b\\\"\":\"line\\nnext\\t\\\\ \\u0001\",\"c\":{}}");
    assert_eq!(params_key(JsonValue::Array(vec![])), "[]");
    assert_eq!(params_key(JsonValue::Bool(false)), "false");
}

#[test]
fn schema_checks() {
    let schema = JsonValue::Object(vec![
        ("type".to_string(), JsonValue::Str("object".to_string())),
        ("required".to_string(), JsonValue::Array(vec![JsonValue::Str("name".to_string())])),
    ]);
    let good = JsonValue::Object(vec![("name".to_string(), JsonValue::Str("x".to_string()))]);
    assert!(matches!(check_against_schema(&schema, &good), SchemaCheck::Valid));
    assert!(matches!(check_against_schema(&schema, &JsonValue::Object(vec![])), SchemaCheck::Invalid { .. }));
    let bad_schema = JsonValue::Object(vec![("type".to_string(), JsonValue::Number("12".to_string()))]);
    assert!(matches!(check_against_schema(&bad_schema, &good), SchemaCheck::Unusable(_)));
}
