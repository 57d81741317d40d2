use rs_fast_mcp::server::tasks::TaskMeta;
use rs_fast_mcp::error::FastMCPError;
use rs_fast_mcp::mcp::types::{JsonRpcRequest, JsonValue, RequestId};
use rs_fast_mcp::server::engine::{list_changed_methods, route, FastMCP, Route, ToolCall};
use rs_fast_mcp::server::strategy::DuplicateStrategy;
use rs_fast_mcp::tools::tool::Tool;
use rs_fast_mcp::util::string_set::StringSet;

fn create_test_tool(name: &str) -> Tool {
    Tool::new(name, "Test tool")
}

fn request(method: &str, params: Option<JsonValue>) -> JsonRpcRequest {
    JsonRpcRequest {
        jsonrpc: "2.0".to_string(),
        id: RequestId::Int(1),
        method: method.to_string(),
        params,
        transport_metadata: None,
    }
}

fn no_args() -> JsonValue {
    JsonValue::Object(vec![])
}

fn object(members: Vec<(&str, JsonValue)>) -> JsonValue {
    JsonValue::Object(members.into_iter().map(|(k, v)| (k.to_string(), v)).collect())
}

#[test]
fn test_tool_management() {
    let mut server = FastMCP::new("test", "1.0");

    server.add_tool(create_test_tool("tool1")).unwrap();
    assert_eq!(server.list_tools(&vec![]).len(), 1);

    let t = server.get_tool("tool1").unwrap();
    assert_eq!(t.name, "tool1");

    server.remove_tool("tool1");
    assert_eq!(server.list_tools(&vec![]).len(), 0);
}

#[test]
fn duplicate_strategies() {
    let mut server = FastMCP::new("test", "1.0");
    server.add_tool(create_test_tool("t")).unwrap();
    server.call_tool("t", &no_args()).unwrap();
    assert_eq!(server.get_tool_usage("t"), Some(1));

    // Warn replaces the entry, so its count starts again.
    server.add_tool(create_test_tool("t")).unwrap();
    assert_eq!(server.get_tool_usage("t"), Some(0));

    server.set_tool_strategy(DuplicateStrategy::Error);
    match server.add_tool(create_test_tool("t")) {
        Err(FastMCPError::InvalidRequest(m)) => assert_eq!(m, "Duplicate tool: t"),
        _ => panic!("expected a duplicate error"),
    }

    server.call_tool("t", &no_args()).unwrap();
    server.set_tool_strategy(DuplicateStrategy::Ignore);
    server.add_tool(create_test_tool("t")).unwrap();
    assert_eq!(server.get_tool_usage("t"), Some(1));

    server.set_tool_strategy(DuplicateStrategy::Replace);
    server.add_tool(create_test_tool("t")).unwrap();
    assert_eq!(server.get_tool_usage("t"), Some(0));
    assert_eq!(server.list_tools(&vec![]).len(), 1);
}

#[test]
fn unknown_tool_gets_a_suggestion() {
    let mut server = FastMCP::new("test", "1.0");
    server.add_tool(create_test_tool("search")).unwrap();
    match server.call_tool("serch", &no_args()) {
        Err(FastMCPError::InvalidRequest(m)) => {
            assert_eq!(m, "Tool not found: serch. Did you mean 'search'?")
        },
        _ => panic!("expected not found"),
    }
    match server.call_tool("completely_different", &no_args()) {
        Err(FastMCPError::InvalidRequest(m)) => assert_eq!(m, "Tool not found: completely_different"),
        _ => panic!("expected not found"),
    }
}

#[test]
fn registered_function_tool_gets_prepared_schema() {
    let mut server = FastMCP::new("test", "1.0");
    server.add_tool(create_test_tool("t")).unwrap();
    let t = server.get_tool("t").unwrap();
    match t.data {
        rs_fast_mcp::tools::tool::ToolKind::Function(f) => assert!(f.compiled_schema.is_some()),
        _ => panic!("expected a function tool"),
    }
}

#[test]
fn filtering_by_tags_and_visibility() {
    let mut server = FastMCP::new("test", "1.0");
    let public = StringSet::from_vec(vec!["public".to_string()]);
    let internal = StringSet::from_vec(vec!["internal".to_string()]);
    assert!(server.should_include("a", &public));
    server.set_filtering(vec!["public".to_string()], vec!["internal".to_string()]);
    assert!(server.should_include("a", &public));
    assert!(!server.should_include("a", &internal));
    assert!(!server.should_include("a", &StringSet::new()));
    server.disable_components(Some(StringSet::from_vec(vec!["a".to_string()])), None);
    assert!(!server.should_include("a", &public));
    assert!(server.should_include("b", &public));
}

#[test]
fn announce_lists_filtered_tools() {
    let mut server = FastMCP::new("test", "1.0");
    server.add_tool(create_test_tool("a")).unwrap();
    server.add_tool(create_test_tool("b")).unwrap();
    server.disable_components(Some(StringSet::from_vec(vec!["b".to_string()])), None);
    let extra = vec![create_test_tool("c")];
    let listed = server.announce_tools(&extra);
    let mut names: Vec<String> = listed.iter().map(|t| t.name.clone()).collect();
    names.sort();
    assert_eq!(names, vec!["a".to_string(), "c".to_string()]);
}

#[test]
fn initialize_reports_identity_and_capabilities() {
    let mut server = FastMCP::new("srv", "2.1");
    server.set_instructions("be nice");
    let r = server.initialize_result();
    assert_eq!(r.protocol_version, "2.0");
    assert_eq!(r.server_name, "srv");
    assert_eq!(r.server_version, "2.1");
    assert_eq!(r.instructions.as_deref(), Some("be nice"));
    assert!(r.tools_list_changed && r.resources_list_changed && r.resources_subscribe && r.prompts_list_changed);
}

#[test]
fn routing_of_requests() {
    assert!(matches!(route(&request("initialize", None)), Ok(Route::Initialize)));
    match route(&request("ping", None)) {
        Ok(Route::Respond(JsonValue::Str(s))) => assert_eq!(s, "pong"),
        _ => panic!("expected pong"),
    }
    assert!(matches!(route(&request("notifications/initialized", None)), Ok(Route::Respond(JsonValue::Null))));
    assert!(matches!(route(&request("tools/list", None)), Ok(Route::ListTools)));
    let call = request("tools/call", Some(object(vec![("name", JsonValue::Str("t".to_string()))])));
    match route(&call) {
        Ok(Route::CallTool { name, arguments: JsonValue::Object(members) }) => {
            assert_eq!(name, "t");
            assert!(members.is_empty());
        },
        _ => panic!("expected a tool call"),
    }
    match route(&request("tools/call", None)) {
        Err(FastMCPError::InvalidRequest(m)) => assert_eq!(m, "Missing tool name"),
        _ => panic!("expected missing name"),
    }
    match route(&request("resources/read", Some(object(vec![])))) {
        Err(FastMCPError::InvalidRequest(m)) => assert_eq!(m, "Missing resource uri"),
        _ => panic!("expected missing uri"),
    }
    match route(&request("prompts/get", None)) {
        Err(FastMCPError::InvalidRequest(m)) => assert_eq!(m, "Missing prompt name"),
        _ => panic!("expected missing name"),
    }
    match route(&request("nope", None)) {
        Err(FastMCPError::InvalidRequest(m)) => assert_eq!(m, "Method not found"),
        _ => panic!("expected not found"),
    }
}

#[test]
fn list_changed_methods_in_order() {
    assert_eq!(
        list_changed_methods(),
        vec![
            "notifications/tools/list_changed".to_string(),
            "notifications/resources/list_changed".to_string(),
            "notifications/prompts/list_changed".to_string(),
        ]
    );
}

#[test]
fn background_call_gets_component_key() {
    let mut server = FastMCP::new("test", "1.0");
    server.add_tool(create_test_tool("slow")).unwrap();
    let meta = server.prepare_background_call("slow", TaskMeta::new(30)).unwrap();
    assert_eq!(meta.ttl, 30);
    assert_eq!(meta.fn_key.as_deref(), Some("tool:slow"));
    match server.prepare_background_call("nope", TaskMeta::new(30)) {
        Err(FastMCPError::InvalidRequest(m)) => assert_eq!(m, "Tool not found: nope"),
        _ => panic!("expected not found"),
    }
}

#[test]
fn arguments_are_checked_against_the_schema() {
    let mut server = FastMCP::new("test", "1.0");
    server.add_tool(create_test_tool("t")).unwrap();
    match server.call_tool("t", &JsonValue::Str("not an object".to_string())) {
        Err(FastMCPError::InvalidRequest(m)) => assert!(m.starts_with("Invalid arguments: "), "got {}", m),
        _ => panic!("expected invalid arguments"),
    }
    // The call is counted even when its arguments are refused.
    assert_eq!(server.get_tool_usage("t"), Some(1));
    assert!(server.call_tool("t", &no_args()).is_ok());
}

#[test]
fn list_tools_includes_mounted_provider_tools() {
    let mut server = FastMCP::new("parent", "1.0");
    server.add_tool(create_test_tool("local")).unwrap();
    let from_child = vec![create_test_tool("api_greet")];
    let names: Vec<String> = server.list_tools(&from_child).iter().map(|t| t.name.clone()).collect();
    assert_eq!(names, vec!["local".to_string(), "api_greet".to_string()]);
}

#[test]
fn call_of_mounted_name_goes_to_the_mount() {
    let mut parent = FastMCP::new("parent", "1.0");
    parent.add_tool(create_test_tool("own")).unwrap();
    assert_eq!(parent.mount("api"), 0);
    assert_eq!(parent.mount("db"), 1);
    match parent.route_tool_call("api_greet", &no_args()) {
        Ok(ToolCall::Mounted { mount, name }) => {
            assert_eq!(mount, 0);
            assert_eq!(name, "greet");
        },
        _ => panic!("expected the api mount"),
    }
    match parent.route_tool_call("db_query", &no_args()) {
        Ok(ToolCall::Mounted { mount, name }) => {
            assert_eq!(mount, 1);
            assert_eq!(name, "query");
        },
        _ => panic!("expected the db mount"),
    }
    match parent.route_tool_call("own", &no_args()) {
        Ok(ToolCall::Local(t)) => assert_eq!(t.name, "own"),
        _ => panic!("expected the local tool"),
    }
    assert_eq!(parent.get_tool_usage("own"), Some(1));
    match parent.route_tool_call("other", &no_args()) {
        Err(FastMCPError::InvalidRequest(m)) => assert_eq!(m, "Tool not found: other"),
        _ => panic!("expected not found"),
    }
}
