use rs_fast_mcp::mcp::types::{JsonRpcRequest, JsonRpcResponse, JsonValue, RequestId};
use rs_fast_mcp::server::middleware::caching::{is_cacheable, CacheMiddleware, Lookup};

fn request(id: i64, method: &str) -> JsonRpcRequest {
    JsonRpcRequest {
        jsonrpc: "2.0".to_string(),
        id: RequestId::Int(id),
        method: method.to_string(),
        params: None,
        transport_metadata: None,
    }
}

#[test]
fn cached_methods() {
    for m in ["tools/list", "resources/list", "prompts/list", "tools/call", "resources/read", "prompts/get"] {
        assert!(is_cacheable(m));
    }
    assert!(!is_cacheable("ping"));
    assert!(!is_cacheable("initialize"));
}

#[test]
fn cache_key_of_request() {
    let mut call = request(1, "tools/call");
    call.params = Some(JsonValue::Object(vec![("name".to_string(), JsonValue::Str("x".to_string()))]));
    let k = CacheMiddleware::get_cache_key(&call).unwrap();
    assert_eq!(k.0, "tools/call");
    assert_eq!(k.1, "{\"name\":\"x\"}");
    let k = CacheMiddleware::get_cache_key(&request(2, "tools/list")).unwrap();
    assert_eq!(k.1, "null");
    assert!(CacheMiddleware::get_cache_key(&request(3, "ping")).is_none());
}

#[test]
fn different_parameters_are_cached_apart() {
    let mut cache = CacheMiddleware::new(4, 600);
    let mut a = request(1, "resources/read");
    a.params = Some(JsonValue::Object(vec![("uri".to_string(), JsonValue::Str("a".to_string()))]));
    let mut b = request(2, "resources/read");
    b.params = Some(JsonValue::Object(vec![("uri".to_string(), JsonValue::Str("b".to_string()))]));
    let key = match cache.lookup(&a) {
        Lookup::Miss(k) => k,
        Lookup::Hit(_) => panic!("empty cache"),
    };
    cache.store(key, &Ok(JsonRpcResponse::new(RequestId::Int(1), JsonValue::Str("A".to_string()))));
    assert!(matches!(cache.lookup(&b), Lookup::Miss(Some(_))));
    assert!(matches!(cache.lookup(&a), Lookup::Hit(_)));
}

#[test]
fn failures_are_not_cached() {
    let mut cache = CacheMiddleware::new(4, 600);
    let key = CacheMiddleware::get_cache_key(&request(1, "tools/list"));
    cache.store(key, &Err(rs_fast_mcp::error::FastMCPError::new("boom".to_string())));
    assert!(matches!(cache.lookup(&request(2, "tools/list")), Lookup::Miss(Some(_))));
}

#[test]
fn stored_response_is_answered_under_new_id() {
    let mut cache = CacheMiddleware::new(4, 600);
    let key = match cache.lookup(&request(1, "tools/list")) {
        Lookup::Miss(k) => k,
        Lookup::Hit(_) => panic!("empty cache"),
    };
    assert!(key.is_some());
    let reply = JsonRpcResponse::new(RequestId::Int(1), JsonValue::Str("tools".to_string()));
    cache.store(key, &Ok(reply));
    match cache.lookup(&request(7, "tools/list")) {
        Lookup::Hit(resp) => {
            assert!(matches!(resp.id, RequestId::Int(7)));
            assert!(matches!(resp.result, JsonValue::Str(ref s) if s == "tools"));
        },
        Lookup::Miss(_) => panic!("expected a hit"),
    }
}

#[test]
fn uncached_method_is_passed_through() {
    let mut cache = CacheMiddleware::new(4, 600);
    assert!(matches!(cache.lookup(&request(1, "ping")), Lookup::Miss(None)));
}

#[test]
fn expired_entry_is_dropped() {
    let mut cache = CacheMiddleware::new(4, 0);
    let key = match cache.lookup(&request(1, "tools/list")) {
        Lookup::Miss(k) => k,
        Lookup::Hit(_) => panic!("empty cache"),
    };
    cache.store(key, &Ok(JsonRpcResponse::new(RequestId::Int(1), JsonValue::Null)));
    let start = std::time::Instant::now();
    while start.elapsed().as_millis() < 2 {}
    assert!(matches!(cache.lookup(&request(2, "tools/list")), Lookup::Miss(Some(_))));
}

#[test]
fn least_recently_used_entry_is_pushed_out() {
    let mut cache = CacheMiddleware::new(1, 600);
    let k1 = CacheMiddleware::get_cache_key(&request(1, "tools/list"));
    let k2 = CacheMiddleware::get_cache_key(&request(2, "prompts/list"));
    cache.store(k1, &Ok(JsonRpcResponse::new(RequestId::Int(1), JsonValue::Null)));
    cache.store(k2, &Ok(JsonRpcResponse::new(RequestId::Int(2), JsonValue::Null)));
    assert!(matches!(cache.lookup(&request(3, "tools/list")), Lookup::Miss(_)));
    assert!(matches!(cache.lookup(&request(4, "prompts/list")), Lookup::Hit(_)));
}
