use rs_fast_mcp::mcp::types::JsonValue;
use rs_fast_mcp::util::json_schema::optimize_schema;

fn same(a: &JsonValue, b: &JsonValue) -> bool {
    match (a, b) {
        (JsonValue::Null, JsonValue::Null) => true,
        (JsonValue::Bool(x), JsonValue::Bool(y)) => x == y,
        (JsonValue::Number(x), JsonValue::Number(y)) => x == y,
        (JsonValue::Str(x), JsonValue::Str(y)) => x == y,
        (JsonValue::Array(x), JsonValue::Array(y)) => {
            x.len() == y.len() && x.iter().zip(y.iter()).all(|(p, q)| same(p, q))
        },
        (JsonValue::Object(x), JsonValue::Object(y)) => {
            x.len() == y.len() && x.iter().zip(y.iter()).all(|(p, q)| p.0 == q.0 && same(&p.1, &q.1))
        },
        _ => false,
    }
}

fn object(members: Vec<(&str, JsonValue)>) -> JsonValue {
    JsonValue::Object(members.into_iter().map(|(k, v)| (k.to_string(), v)).collect())
}

#[test]
fn test_optimize_schema_passthrough() {
    let schema = object(vec![
        ("type", JsonValue::Str("object".to_string())),
        ("properties", object(vec![("foo", object(vec![("type", JsonValue::Str("string".to_string()))]))])),
    ]);
    let optimized = optimize_schema(&schema);
    assert!(same(&schema, &optimized));
}
