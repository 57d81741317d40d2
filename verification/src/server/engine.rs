//! The server engine: component filtering, request routing and the replies
//! the engine computes itself.

use vstd::prelude::*;
use crate::error::FastMCPError;
use crate::mcp::types::{json_view, JsonRpcRequest, JsonValue, JsonView};
use crate::server::strategy::DuplicateStrategy;
use crate::server::tasks::TaskMeta;
use crate::server::visibility::{after_disable, after_enable, filter_allows, fresh_filter, opt_set, FilterView, VisibilityFilter};
use crate::tools::manager::{arguments_error, is_best_suggestion, lists_registry, next_count, no_suggestion, not_found_message, EntryView, ToolManager};
use crate::tools::tool::{copy_opt_json, opt_json, Tool, ToolKind, ToolKindView, ToolView};
use crate::util::component::copy_opt_string;
use crate::util::string_set::StringSet;
use crate::util::text::{after_prefix, chars_of, has_prefix, opt_chars, owned, str_eq, strip_prefix};

verus! {

/// The JSON-RPC protocol version reported by `initialize`.
pub const JSONRPC_VERSION: &'static str = "2.0";

/// Some element of `tags` is listed in `list`.
pub open spec fn any_listed(tags: Set<Seq<char>>, list: Seq<Seq<char>>) -> bool {
    exists|t: Seq<char>| tags.contains(t) && list.contains(t)
}

/// Whether a component with `key` and `tags` is listed: the visibility filter
/// must show it, no tag may be excluded, and when included tags are set one of
/// its tags must be included.
pub open spec fn includes(
    f: FilterView,
    included: Seq<Seq<char>>,
    excluded: Seq<Seq<char>>,
    key: Seq<char>,
    tags: Set<Seq<char>>,
) -> bool {
    &&& filter_allows(f, key, tags)
    &&& !any_listed(tags, excluded)
    &&& (included.len() == 0 || any_listed(tags, included))
}

/// A tool as announced to clients.
pub struct McpTool {
    pub name: String,
    pub title: Option<String>,
    pub description: Option<String>,
    pub input_schema: JsonValue,
    pub output_schema: Option<JsonValue>,
}

/// Model of an announced tool.
pub ghost struct McpToolView {
    pub name: Seq<char>,
    pub title: Option<Seq<char>>,
    pub description: Option<Seq<char>>,
    pub input_schema: JsonView,
    pub output_schema: Option<JsonView>,
}

impl View for McpTool {
    type V = McpToolView;

    open spec fn view(&self) -> McpToolView {
        McpToolView {
            name: self.name@,
            title: opt_chars(self.title),
            description: opt_chars(self.description),
            input_schema: json_view(self.input_schema),
            output_schema: opt_json(self.output_schema),
        }
    }
}

/// How a tool is announced: function tools with their schemas, other tools
/// with an empty schema.
pub open spec fn announced(t: ToolView) -> McpToolView {
    McpToolView {
        name: t.name,
        title: t.title,
        description: t.description,
        input_schema: match t.data {
            ToolKindView::Function(f) => f.input_schema,
            _ => JsonView::Object(Seq::empty()),
        },
        output_schema: match t.data {
            ToolKindView::Function(f) => f.output_schema,
            _ => None,
        },
    }
}

/// The server capabilities announced by `initialize`: tools, resources and
/// prompts all report list changes; resources support subscriptions.
pub struct InitializeResult {
    pub protocol_version: String,
    pub server_name: String,
    pub server_version: String,
    pub instructions: Option<String>,
    pub tools_list_changed: bool,
    pub resources_list_changed: bool,
    pub resources_subscribe: bool,
    pub prompts_list_changed: bool,
}

/// What the engine does with a request.
pub enum Route {
    /// Answer `initialize` (after the parameters have been read).
    Initialize,
    /// Answer at once with this result.
    Respond(JsonValue),
    /// List the tools.
    ListTools,
    /// Call tool `name` with `arguments`.
    CallTool { name: String, arguments: JsonValue },
    /// List the resources.
    ListResources,
    /// List the resource templates.
    ListResourceTemplates,
    /// Subscribe the session to resource `uri`.
    SubscribeResource { uri: String },
    /// Unsubscribe the session from resource `uri`.
    UnsubscribeResource { uri: String },
    /// Read resource `uri`.
    ReadResource { uri: String },
    /// List the prompts.
    ListPrompts,
    /// Render prompt `name` with the optional `arguments` parameter.
    GetPrompt { name: String, prompt_arguments: Option<JsonValue> },
}

/// Model of a [`Route`].
pub ghost enum RouteView {
    Initialize,
    Respond(JsonView),
    ListTools,
    CallTool(Seq<char>, JsonView),
    ListResources,
    ListResourceTemplates,
    SubscribeResource(Seq<char>),
    UnsubscribeResource(Seq<char>),
    ReadResource(Seq<char>),
    ListPrompts,
    GetPrompt(Seq<char>, Option<JsonView>),
}

impl View for Route {
    type V = RouteView;

    open spec fn view(&self) -> RouteView {
        match self {
            Route::Initialize => RouteView::Initialize,
            Route::Respond(v) => RouteView::Respond(json_view(*v)),
            Route::ListTools => RouteView::ListTools,
            Route::CallTool { name, arguments } => RouteView::CallTool(name@, json_view(*arguments)),
            Route::ListResources => RouteView::ListResources,
            Route::ListResourceTemplates => RouteView::ListResourceTemplates,
            Route::SubscribeResource { uri } => RouteView::SubscribeResource(uri@),
            Route::UnsubscribeResource { uri } => RouteView::UnsubscribeResource(uri@),
            Route::ReadResource { uri } => RouteView::ReadResource(uri@),
            Route::ListPrompts => RouteView::ListPrompts,
            Route::GetPrompt { name, prompt_arguments } => RouteView::GetPrompt(name@, opt_json(*prompt_arguments)),
        }
    }
}

/// The member `key` of the request parameters.
pub open spec fn param(req: JsonRpcRequest, key: Seq<char>) -> Option<JsonValue> {
    match req.params {
        Some(p) => p.spec_get(key),
        None => None,
    }
}

/// The string member `key` of the request parameters.
pub open spec fn param_str(req: JsonRpcRequest, key: Seq<char>) -> Option<Seq<char>> {
    match param(req, key) {
        Some(v) => v.spec_str(),
        None => None,
    }
}

/// The route of a request with a required string parameter, or the error
/// naming what is missing.
pub open spec fn with_str_param(
    req: JsonRpcRequest,
    key: Seq<char>,
    missing: Seq<char>,
    route: spec_fn(Seq<char>) -> RouteView,
) -> Result<RouteView, Seq<char>> {
    match param_str(req, key) {
        Some(s) => Ok(route(s)),
        None => Err(missing),
    }
}

/// Where a request goes: its route, or the message of the invalid-request
/// error it is answered with.
pub open spec fn route_of(req: JsonRpcRequest) -> Result<RouteView, Seq<char>> {
    let m = req.method@;
    if m == "initialize"@ {
        Ok(RouteView::Initialize)
    } else if m == "notifications/initialized"@ {
        Ok(RouteView::Respond(JsonView::Null))
    } else if m == "ping"@ {
        Ok(RouteView::Respond(JsonView::Str("pong"@)))
    } else if m == "tools/list"@ {
        Ok(RouteView::ListTools)
    } else if m == "tools/call"@ {
        match param_str(req, "name"@) {
            Some(n) => Ok(
                RouteView::CallTool(
                    n,
                    match param(req, "arguments"@) {
                        Some(a) => json_view(a),
                        None => JsonView::Object(Seq::empty()),
                    },
                ),
            ),
            None => Err("Missing tool name"@),
        }
    } else if m == "resources/list"@ {
        Ok(RouteView::ListResources)
    } else if m == "resources/templates/list"@ {
        Ok(RouteView::ListResourceTemplates)
    } else if m == "resources/subscribe"@ {
        with_str_param(req, "uri"@, "Missing resource uri"@, |u: Seq<char>| RouteView::SubscribeResource(u))
    } else if m == "resources/unsubscribe"@ {
        with_str_param(req, "uri"@, "Missing resource uri"@, |u: Seq<char>| RouteView::UnsubscribeResource(u))
    } else if m == "resources/read"@ {
        with_str_param(req, "uri"@, "Missing resource uri"@, |u: Seq<char>| RouteView::ReadResource(u))
    } else if m == "prompts/list"@ {
        Ok(RouteView::ListPrompts)
    } else if m == "prompts/get"@ {
        match param_str(req, "name"@) {
            Some(n) => Ok(
                RouteView::GetPrompt(
                    n,
                    match param(req, "arguments"@) {
                        Some(a) => Some(json_view(a)),
                        None => None,
                    },
                ),
            ),
            None => Err("Missing prompt name"@),
        }
    } else {
        Err("Method not found"@)
    }
}

/// The string parameter `key` of a request.
fn param_string(request: &JsonRpcRequest, key: &str) -> (r: Option<String>)
    ensures
        opt_chars(r) == param_str(*request, key@),
{
    match &request.params {
        Some(p) => p.get_str(key),
        None => None,
    }
}

/// A copy of the parameter `key` of a request.
fn param_value(request: &JsonRpcRequest, key: &str) -> (r: Option<JsonValue>)
    ensures
        opt_json(r) == opt_json(param(*request, key@)),
{
    match &request.params {
        Some(p) => match p.get(key) {
            Some(v) => Some(v.deep_copy()),
            None => None,
        },
        None => None,
    }
}

/// Decides where a request goes (the dispatch of the request handler).
pub fn route(request: &JsonRpcRequest) -> (r: Result<Route, FastMCPError>)
    ensures
        match route_of(*request) {
            Ok(v) => r matches Ok(x) && x@ == v,
            Err(m) => r matches Err(FastMCPError::InvalidRequest(e)) && e@ == m,
        },
{
    let m = request.method.as_str();
    if str_eq(m, "initialize") {
        Ok(Route::Initialize)
    } else if str_eq(m, "notifications/initialized") {
        Ok(Route::Respond(JsonValue::Null))
    } else if str_eq(m, "ping") {
        Ok(Route::Respond(JsonValue::Str(owned("pong"))))
    } else if str_eq(m, "tools/list") {
        Ok(Route::ListTools)
    } else if str_eq(m, "tools/call") {
        match param_string(request, "name") {
            Some(name) => {
                let arguments = match param_value(request, "arguments") {
                    Some(a) => a,
                    None => {
                        let e = JsonValue::Object(Vec::new());
                        proof {
                            let v: Seq<(String, JsonValue)> = Seq::empty();
                            assert(crate::mcp::types::member_views(v) =~= Seq::<(Seq<char>, JsonView)>::empty());
                        }
                        e
                    },
                };
                Ok(Route::CallTool { name, arguments })
            },
            None => Err(FastMCPError::InvalidRequest(owned("Missing tool name"))),
        }
    } else if str_eq(m, "resources/list") {
        Ok(Route::ListResources)
    } else if str_eq(m, "resources/templates/list") {
        Ok(Route::ListResourceTemplates)
    } else if str_eq(m, "resources/subscribe") {
        match param_string(request, "uri") {
            Some(uri) => Ok(Route::SubscribeResource { uri }),
            None => Err(FastMCPError::InvalidRequest(owned("Missing resource uri"))),
        }
    } else if str_eq(m, "resources/unsubscribe") {
        match param_string(request, "uri") {
            Some(uri) => Ok(Route::UnsubscribeResource { uri }),
            None => Err(FastMCPError::InvalidRequest(owned("Missing resource uri"))),
        }
    } else if str_eq(m, "resources/read") {
        match param_string(request, "uri") {
            Some(uri) => Ok(Route::ReadResource { uri }),
            None => Err(FastMCPError::InvalidRequest(owned("Missing resource uri"))),
        }
    } else if str_eq(m, "prompts/list") {
        Ok(Route::ListPrompts)
    } else if str_eq(m, "prompts/get") {
        match param_string(request, "name") {
            Some(name) => Ok(Route::GetPrompt { name, prompt_arguments: param_value(request, "arguments") }),
            None => Err(FastMCPError::InvalidRequest(owned("Missing prompt name"))),
        }
    } else {
        Err(FastMCPError::InvalidRequest(owned("Method not found")))
    }
}

/// The notifications sent when the component lists change.
pub open spec fn list_changed_notifications() -> Seq<Seq<char>> {
    seq![
        "notifications/tools/list_changed"@,
        "notifications/resources/list_changed"@,
        "notifications/prompts/list_changed"@,
    ]
}

/// The methods of the three list-changed notifications, in the order they are sent.
pub fn list_changed_methods() -> (r: Vec<String>)
    ensures
        chars_of(r@) == list_changed_notifications(),
{
    let mut v = Vec::new();
    v.push(owned("notifications/tools/list_changed"));
    v.push(owned("notifications/resources/list_changed"));
    v.push(owned("notifications/prompts/list_changed"));
    assert(chars_of(v@) =~= list_changed_notifications());
    v
}

/// The server engine's own state: identity, tool registry and listing filters.
pub struct FastMCP {
    name: String,
    version: String,
    instructions: Option<String>,
    tools: ToolManager,
    visibility: VisibilityFilter,
    include_tags: Vec<String>,
    exclude_tags: Vec<String>,
    mounts: Vec<String>,
}

/// Model of the engine state.
pub ghost struct EngineView {
    pub name: Seq<char>,
    pub version: Seq<char>,
    pub instructions: Option<Seq<char>>,
    pub tools: Map<Seq<char>, EntryView>,
    pub strategy: DuplicateStrategy,
    pub visibility: FilterView,
    pub include_tags: Seq<Seq<char>>,
    pub exclude_tags: Seq<Seq<char>>,
    /// The namespaces of the mounted servers, in the order they were mounted.
    pub mounts: Seq<Seq<char>>,
}

impl View for FastMCP {
    type V = EngineView;

    closed spec fn view(&self) -> EngineView {
        EngineView {
            name: self.name@,
            version: self.version@,
            instructions: opt_chars(self.instructions),
            tools: self.tools@,
            strategy: self.tools.spec_strategy(),
            visibility: self.visibility@,
            include_tags: chars_of(self.include_tags@),
            exclude_tags: chars_of(self.exclude_tags@),
            mounts: chars_of(self.mounts@),
        }
    }
}

/// Whether `x` is among the strings of `v`.
fn listed(v: &Vec<String>, x: &str) -> (r: bool)
    ensures
        r == chars_of(v@).contains(x@),
{
    let mut i: usize = 0;
    while i < v.len()
        invariant
            i <= v@.len(),
            forall|k: int| 0 <= k < i ==> v@[k]@ != x@,
        decreases v@.len() - i,
    {
        if str_eq(v[i].as_str(), x) {
            assert(chars_of(v@)[i as int] == x@);
            return true;
        }
        i = i + 1;
    }
    proof {
        if chars_of(v@).contains(x@) {
            let k = choose|k: int| 0 <= k < chars_of(v@).len() && chars_of(v@)[k] == x@;
            assert(v@[k]@ == x@);
        }
    }
    false
}

/// Whether some tag is listed in `v`.
fn any_tag_listed(tags: &StringSet, v: &Vec<String>) -> (r: bool)
    ensures
        r == any_listed(tags@, chars_of(v@)),
{
    let n = tags.len();
    let mut i: usize = 0;
    while i < n
        invariant
            n == tags.seq().len(),
            i <= n,
            forall|k: int| 0 <= k < i ==> !chars_of(v@).contains(#[trigger] tags.seq()[k]),
        decreases n - i,
    {
        if listed(v, tags.get(i).as_str()) {
            return true;
        }
        i = i + 1;
    }
    assert forall|t: Seq<char>| tags@.contains(t) implies !chars_of(v@).contains(t) by {
        let k = choose|k: int| 0 <= k < tags.seq().len() && tags.seq()[k] == t;
    }
    false
}

/// The announcement of a tool.
fn announce(t: &Tool) -> (r: McpTool)
    ensures
        r@ == announced(t@),
{
    match &t.data {
        ToolKind::Function(f) => McpTool {
            name: t.name.clone(),
            title: copy_opt_string(&t.title),
            description: copy_opt_string(&t.description),
            input_schema: f.input_schema.deep_copy(),
            output_schema: copy_opt_json(&f.output_schema),
        },
        _ => {
            let schema = JsonValue::Object(Vec::new());
            proof {
                let v: Seq<(String, JsonValue)> = Seq::empty();
                assert(crate::mcp::types::member_views(v) =~= Seq::<(Seq<char>, JsonView)>::empty());
            }
            McpTool {
                name: t.name.clone(),
                title: copy_opt_string(&t.title),
                description: copy_opt_string(&t.description),
                input_schema: schema,
                output_schema: None,
            }
        },
    }
}

/// The announcements of the tools that pass the listing filter, in order.
pub open spec fn announce_listed(
    e: EngineView,
    tools: Seq<ToolView>,
) -> Seq<McpToolView>
    decreases tools.len(),
{
    if tools.len() == 0 {
        Seq::empty()
    } else {
        let rest = announce_listed(e, tools.drop_last());
        let t = tools.last();
        if includes(e.visibility, e.include_tags, e.exclude_tags, t.name, t.tags) {
            rest.push(announced(t))
        } else {
            rest
        }
    }
}

/// The error a tool call gives for a name that is not registered: the name,
/// with the closest registered name as suggestion where there is one.
pub open spec fn not_found_error(
    tools: Map<Seq<char>, EntryView>,
    name: Seq<char>,
    r: Result<Tool, FastMCPError>,
) -> bool {
    r matches Err(FastMCPError::InvalidRequest(m)) && exists|s: Option<Seq<char>>|
        (match s {
            Some(x) => is_best_suggestion(tools, name, x),
            None => no_suggestion(tools, name),
        }) && m@ == not_found_message(name, s)
}

/// The first mount whose `{namespace}_` prefixes `name`.
pub open spec fn mount_for(mounts: Seq<Seq<char>>, name: Seq<char>) -> Option<int> {
    if exists|i: int| 0 <= i < mounts.len() && has_prefix(name, mounts[i] + "_"@) {
        Some(
            choose|i: int|
                0 <= i < mounts.len() && has_prefix(name, mounts[i] + "_"@) && forall|j: int|
                    0 <= j < i ==> !has_prefix(name, #[trigger] mounts[j] + "_"@),
        )
    } else {
        None
    }
}

/// `mount_for` is the first prefixing mount.
proof fn lemma_mount_for(mounts: Seq<Seq<char>>, name: Seq<char>, i: int)
    requires
        0 <= i < mounts.len(),
        has_prefix(name, mounts[i] + "_"@),
        forall|j: int| 0 <= j < i ==> !has_prefix(name, #[trigger] mounts[j] + "_"@),
    ensures
        mount_for(mounts, name) == Some(i),
{
    let c = choose|c: int|
        0 <= c < mounts.len() && has_prefix(name, mounts[c] + "_"@) && forall|j: int|
            0 <= j < c ==> !has_prefix(name, #[trigger] mounts[j] + "_"@);
    assert(0 <= c < mounts.len() && has_prefix(name, mounts[c] + "_"@) && forall|j: int|
            0 <= j < c ==> !has_prefix(name, #[trigger] mounts[j] + "_"@));
    if c < i {
        assert(!has_prefix(name, mounts[c] + "_"@));
    } else if c > i {
        assert(!has_prefix(name, mounts[i] + "_"@));
    }
}

/// Where a `tools/call` goes.
pub enum ToolCall {
    /// A registered tool, to be run here.
    Local(Tool),
    /// The tool `name` of the server mounted at index `mount`.
    Mounted { mount: usize, name: String },
}

impl FastMCP {
    /// A server named `name` at `version`, with no tools, no instructions and
    /// no filtering.
    pub fn new(name: &str, version: &str) -> (r: FastMCP)
        ensures
            r@ == (EngineView {
                name: name@,
                version: version@,
                instructions: None,
                tools: Map::empty(),
                strategy: DuplicateStrategy::Warn,
                visibility: fresh_filter(),
                include_tags: Seq::empty(),
                exclude_tags: Seq::empty(),
                mounts: Seq::empty(),
            }),
    {
        let r = FastMCP {
            name: owned(name),
            version: owned(version),
            instructions: None,
            tools: ToolManager::new(),
            visibility: VisibilityFilter::new(),
            include_tags: Vec::new(),
            exclude_tags: Vec::new(),
            mounts: Vec::new(),
        };
        assert(r@.include_tags =~= Seq::<Seq<char>>::empty());
        assert(r@.exclude_tags =~= Seq::<Seq<char>>::empty());
        assert(r@.mounts =~= Seq::<Seq<char>>::empty());
        r
    }

    /// Sets human-readable server instructions returned during initialisation.
    pub fn set_instructions(&mut self, instructions: &str)
        ensures
            final(self)@ == (EngineView { instructions: Some(instructions@), ..old(self)@ }),
    {
        self.instructions = Some(owned(instructions));
    }

    /// Configures tag-based filtering for listings.
    pub fn set_filtering(&mut self, included: Vec<String>, excluded: Vec<String>)
        ensures
            final(self)@ == (EngineView {
                include_tags: chars_of(included@),
                exclude_tags: chars_of(excluded@),
                ..old(self)@
            }),
    {
        self.include_tags = included;
        self.exclude_tags = excluded;
    }

    /// Enables component keys and/or tags in the visibility filter; with
    /// `only`, everything not explicitly enabled is hidden. The caller
    /// announces the three list changes.
    pub fn enable_components(&mut self, keys: Option<StringSet>, tags: Option<StringSet>, only: bool)
        ensures
            final(self)@ == (EngineView {
                visibility: after_enable(old(self)@.visibility, opt_set(keys), opt_set(tags), only),
                ..old(self)@
            }),
    {
        self.visibility.enable(keys, tags, only);
    }

    /// Disables component keys and/or tags in the visibility filter. The caller
    /// announces the three list changes.
    pub fn disable_components(&mut self, keys: Option<StringSet>, tags: Option<StringSet>)
        ensures
            final(self)@ == (EngineView {
                visibility: after_disable(old(self)@.visibility, opt_set(keys), opt_set(tags)),
                ..old(self)@
            }),
    {
        self.visibility.disable(keys, tags);
    }

    /// Whether a component with `key` and `tags` appears in listings.
    pub fn should_include(&self, key: &str, tags: &StringSet) -> (r: bool)
        ensures
            r == includes(self@.visibility, self@.include_tags, self@.exclude_tags, key@, tags@),
    {
        if !self.visibility.is_enabled(key, tags) {
            return false;
        }
        if any_tag_listed(tags, &self.exclude_tags) {
            return false;
        }
        if self.include_tags.len() > 0 {
            proof {
                assert(chars_of(self.include_tags@).len() > 0);
            }
            return any_tag_listed(tags, &self.include_tags);
        }
        assert(chars_of(self.include_tags@).len() == 0);
        true
    }

    /// Registers a tool (see [`ToolManager::register`]).
    pub fn add_tool(&mut self, tool: Tool) -> (r: Result<(), FastMCPError>)
        ensures
            final(self)@ == (EngineView { tools: final(self)@.tools, ..old(self)@ }),
            !old(self)@.tools.contains_key(tool.name@) ==> r.is_ok() && final(self)@.tools
                == old(self)@.tools.insert(
                tool.name@,
                EntryView { tool: crate::tools::manager::prepared(tool@), calls: 0 },
            ),
            old(self)@.tools.contains_key(tool.name@) && crate::tools::manager::replaces(
                old(self)@.strategy,
            ) ==> r.is_ok() && final(self)@.tools == old(self)@.tools.insert(
                tool.name@,
                EntryView { tool: crate::tools::manager::prepared(tool@), calls: 0 },
            ),
            old(self)@.tools.contains_key(tool.name@) && old(self)@.strategy
                == DuplicateStrategy::Ignore ==> r.is_ok() && final(self)@.tools == old(self)@.tools,
            old(self)@.tools.contains_key(tool.name@) && old(self)@.strategy
                == DuplicateStrategy::Error ==> (r matches Err(FastMCPError::InvalidRequest(m)) && m@
                == "Duplicate tool: "@ + tool.name@) && final(self)@.tools == old(self)@.tools,
    {
        self.tools.register(tool)
    }

    /// Sets the duplicate-tool registration strategy.
    pub fn set_tool_strategy(&mut self, strategy: DuplicateStrategy)
        ensures
            final(self)@ == (EngineView { strategy, ..old(self)@ }),
    {
        self.tools.set_strategy(strategy);
    }

    /// Removes a registered tool by name.
    pub fn remove_tool(&mut self, name: &str)
        ensures
            final(self)@ == (EngineView { tools: old(self)@.tools.remove(name@), ..old(self)@ }),
    {
        self.tools.remove_tool(name);
    }

    /// All tools: the registered ones, each once, in the order the registry
    /// hands them out, followed by `provider_tools` (the tools of the mounted
    /// providers, under their announced names).
    pub fn list_tools(&self, provider_tools: &Vec<Tool>) -> (r: Vec<Tool>)
        ensures
            exists|local: Seq<ToolView>|
                lists_registry(self@.tools, local) && r@.map_values(|t: Tool| t@) == local
                    + provider_tools@.map_values(|t: Tool| t@),
    {
        let mut out = self.tools.list_tools();
        let ghost lv = out@.map_values(|t: Tool| t@);
        let ghost pv = provider_tools@.map_values(|t: Tool| t@);
        let mut i: usize = 0;
        while i < provider_tools.len()
            invariant
                i <= provider_tools@.len(),
                pv == provider_tools@.map_values(|t: Tool| t@),
                out@.map_values(|t: Tool| t@) == lv + pv.take(i as int),
            decreases provider_tools@.len() - i,
        {
            let t = provider_tools[i].clone();
            let ghost before = out@.map_values(|x: Tool| x@);
            out.push(t);
            assert(out@.map_values(|x: Tool| x@) =~= before.push(pv[i as int]));
            assert(lv + pv.take(i + 1) =~= (lv + pv.take(i as int)).push(pv[i as int]));
            i = i + 1;
        }
        assert(pv.take(provider_tools@.len() as int) =~= pv);
        assert(lists_registry(self@.tools, lv));
        out
    }

    /// Mounts a server under `namespace`: its tools are then called as
    /// `{namespace}_{name}`. Returns the mount's index, by which the caller
    /// keeps the mounted server; the caller announces the three list changes.
    pub fn mount(&mut self, namespace: &str) -> (r: usize)
        ensures
            r == old(self)@.mounts.len(),
            final(self)@ == (EngineView { mounts: old(self)@.mounts.push(namespace@), ..old(self)@ }),
    {
        let r = self.mounts.len();
        self.mounts.push(owned(namespace));
        assert(chars_of(self.mounts@) =~= chars_of(old(self).mounts@).push(namespace@));
        r
    }

    /// The first mount whose `{namespace}_` prefixes `name`, with the name
    /// behind the prefix.
    fn find_mount(&self, name: &str) -> (r: Option<(usize, String)>)
        ensures
            match r {
                Some((i, rest)) => i < self@.mounts.len() && has_prefix(name@, self@.mounts[i as int] + "_"@)
                    && (forall|j: int| 0 <= j < i ==> !has_prefix(name@, #[trigger] self@.mounts[j] + "_"@))
                    && rest@ == after_prefix(name@, self@.mounts[i as int] + "_"@),
                None => forall|j: int|
                    0 <= j < self@.mounts.len() ==> !has_prefix(name@, #[trigger] self@.mounts[j] + "_"@),
            },
    {
        let mut i: usize = 0;
        while i < self.mounts.len()
            invariant
                i <= self.mounts@.len(),
                self@.mounts == chars_of(self.mounts@),
                forall|j: int| 0 <= j < i ==> !has_prefix(name@, #[trigger] self@.mounts[j] + "_"@),
            decreases self.mounts@.len() - i,
        {
            let mut pfx = self.mounts[i].clone();
            pfx.append("_");
            assert(pfx@ == self@.mounts[i as int] + "_"@);
            match strip_prefix(name, pfx.as_str()) {
                Some(rest) => {
                    return Some((i, rest));
                },
                None => {},
            }
            i = i + 1;
        }
        None
    }

    /// Looks up a tool by name.
    pub fn get_tool(&self, name: &str) -> (r: Option<Tool>)
        ensures
            match r {
                Some(t) => self@.tools.contains_key(name@) && t@ == self@.tools[name@].tool,
                None => !self@.tools.contains_key(name@),
            },
    {
        self.tools.get_tool(name)
    }

    /// The number of times a tool has been called.
    pub fn get_tool_usage(&self, name: &str) -> (r: Option<usize>)
        ensures
            match r {
                Some(c) => self@.tools.contains_key(name@) && c == self@.tools[name@].calls,
                None => !self@.tools.contains_key(name@),
            },
    {
        self.tools.get_usage(name)
    }

    /// Records a call of tool `name` with `arguments` and returns the tool to
    /// run (see [`ToolManager::call_tool`]).
    pub fn call_tool(&mut self, name: &str, arguments: &JsonValue) -> (r: Result<Tool, FastMCPError>)
        ensures
            final(self)@ == (EngineView { tools: final(self)@.tools, ..old(self)@ }),
            !old(self)@.tools.contains_key(name@) ==> final(self)@.tools == old(self)@.tools
                && not_found_error(old(self)@.tools, name@, r),
            old(self)@.tools.contains_key(name@) ==> final(self)@.tools == old(self)@.tools.insert(
                name@,
                EntryView {
                    tool: old(self)@.tools[name@].tool,
                    calls: next_count(old(self)@.tools[name@].calls),
                },
            ),
            old(self)@.tools.contains_key(name@) ==> match old(self)@.tools[name@].tool.data {
                ToolKindView::Function(f) => match arguments_error(f, arguments@) {
                    Some(e) => r matches Err(FastMCPError::InvalidRequest(m)) && m@ == e,
                    None => r matches Ok(t) && t@ == old(self)@.tools[name@].tool,
                },
                ToolKindView::Transformed(_) => r matches Err(FastMCPError::Message(m)) && m@
                    == "Transformed tools not supported yet"@,
            },
    {
        self.tools.call_tool(name, arguments)
    }

    /// Resolves a `tools/call` of `name` with `arguments`. A registered tool is
    /// called here (its call recorded, exactly as [`FastMCP::call_tool`]);
    /// otherwise the first mount whose `{namespace}_` prefixes the name gets
    /// the call, under the name behind the prefix; otherwise the tool is not
    /// found.
    pub fn route_tool_call(&mut self, name: &str, arguments: &JsonValue) -> (r: Result<ToolCall, FastMCPError>)
        ensures
            final(self)@ == (EngineView { tools: final(self)@.tools, ..old(self)@ }),
            old(self)@.tools.contains_key(name@) ==> final(self)@.tools == old(self)@.tools.insert(
                name@,
                EntryView {
                    tool: old(self)@.tools[name@].tool,
                    calls: next_count(old(self)@.tools[name@].calls),
                },
            ) && match old(self)@.tools[name@].tool.data {
                ToolKindView::Function(f) => match arguments_error(f, arguments@) {
                    Some(e) => r matches Err(FastMCPError::InvalidRequest(m)) && m@ == e,
                    None => r matches Ok(ToolCall::Local(t)) && t@ == old(self)@.tools[name@].tool,
                },
                ToolKindView::Transformed(_) => r matches Err(FastMCPError::Message(m)) && m@
                    == "Transformed tools not supported yet"@,
            },
            !old(self)@.tools.contains_key(name@) ==> final(self)@.tools == old(self)@.tools,
            !old(self)@.tools.contains_key(name@) ==> match mount_for(old(self)@.mounts, name@) {
                Some(i) => r matches Ok(ToolCall::Mounted { mount, name: n }) && mount == i
                    && n@ == after_prefix(name@, old(self)@.mounts[i] + "_"@),
                None => (r matches Err(e) && not_found_error(old(self)@.tools, name@, Err(e))),
            },
    {
        if self.tools.get_tool(name).is_some() {
            return match self.tools.call_tool(name, arguments) {
                Ok(t) => Ok(ToolCall::Local(t)),
                Err(e) => Err(e),
            };
        }
        match self.find_mount(name) {
            Some((i, rest)) => {
                proof {
                    lemma_mount_for(self@.mounts, name@, i as int);
                }
                Ok(ToolCall::Mounted { mount: i, name: rest })
            },
            None => {
                proof {
                    assert(mount_for(self@.mounts, name@) is None);
                }
                match self.tools.call_tool(name, arguments) {
                    Ok(t) => Ok(ToolCall::Local(t)),
                    Err(e) => Err(e),
                }
            },
        }
    }

    /// The `tools/list` announcement: the registered tools (in the order the
    /// registry hands them out) followed by `extra` (tools of mounted
    /// providers), keeping those that pass the listing filter.
    pub fn announce_tools(&self, extra: &Vec<Tool>) -> (r: Vec<McpTool>)
        ensures
            exists|local: Seq<ToolView>|
                lists_registry(self@.tools, local) && r@.map_values(|t: McpTool| t@)
                    == announce_listed(self@, local + extra@.map_values(|t: Tool| t@)),
    {
        let local = self.tools.list_tools();
        let mut out: Vec<McpTool> = Vec::new();
        let ghost lv = local@.map_values(|t: Tool| t@);
        assert(out@.map_values(|t: McpTool| t@) =~= announce_listed(self@, Seq::<ToolView>::empty()));
        self.push_listed(&mut out, &local, Ghost(Seq::<ToolView>::empty()));
        assert(Seq::<ToolView>::empty() + lv =~= lv);
        self.push_listed(&mut out, extra, Ghost(lv));
        assert(lists_registry(self@.tools, lv) && out@.map_values(|t: McpTool| t@) == announce_listed(
            self@,
            lv + extra@.map_values(|t: Tool| t@),
        ));
        out
    }

    /// Appends the announcements of the listed tools among `tools`.
    fn push_listed(&self, out: &mut Vec<McpTool>, tools: &Vec<Tool>, Ghost(prefix): Ghost<Seq<ToolView>>)
        requires
            old(out)@.map_values(|t: McpTool| t@) == announce_listed(self@, prefix),
        ensures
            final(out)@.map_values(|t: McpTool| t@) == announce_listed(
                self@,
                prefix + tools@.map_values(|t: Tool| t@),
            ),
    {
        let ghost tv = tools@.map_values(|t: Tool| t@);
        let mut i: usize = 0;
        assert(prefix + tv.take(0) =~= prefix);
        while i < tools.len()
            invariant
                i <= tools@.len(),
                tv == tools@.map_values(|t: Tool| t@),
                out@.map_values(|t: McpTool| t@) == announce_listed(self@, prefix + tv.take(i as int)),
            decreases tools@.len() - i,
        {
            let t = &tools[i];
            proof {
                let q = prefix + tv.take(i + 1);
                assert(q.drop_last() =~= prefix + tv.take(i as int));
                assert(q.last() == t@);
            }
            let ghost before = out@.map_values(|x: McpTool| x@);
            if self.should_include(t.name.as_str(), &t.tags) {
                out.push(announce(t));
                assert(out@.map_values(|x: McpTool| x@) =~= before.push(announced(t@)));
            }
            i = i + 1;
        }
        assert(tv.take(tools@.len() as int) =~= tv);
    }

    /// The task metadata for a background call of tool `name`: the component
    /// key `tool:{name}` is filled in. An unknown tool is reported.
    pub fn prepare_background_call(&self, name: &str, task_meta: TaskMeta) -> (r: Result<
        TaskMeta,
        FastMCPError,
    >)
        ensures
            !self@.tools.contains_key(name@) ==> (r matches Err(FastMCPError::InvalidRequest(m))
                && m@ == "Tool not found: "@ + name@),
            self@.tools.contains_key(name@) ==> (r matches Ok(meta) && meta.ttl == task_meta.ttl
                && (meta.fn_key matches Some(k) && k@ == "tool:"@ + name@)),
    {
        match self.tools.get_tool(name) {
            None => {
                let mut m = owned("Tool not found: ");
                m.append(name);
                Err(FastMCPError::InvalidRequest(m))
            },
            Some(_) => {
                let mut key = owned("tool:");
                key.append(name);
                Ok(TaskMeta { fn_key: Some(key), ..task_meta })
            },
        }
    }

    /// The reply to `initialize`.
    pub fn initialize_result(&self) -> (r: InitializeResult)
        ensures
            r.protocol_version@ == JSONRPC_VERSION@,
            r.server_name@ == self@.name,
            r.server_version@ == self@.version,
            opt_chars(r.instructions) == self@.instructions,
            r.tools_list_changed && r.resources_list_changed && r.resources_subscribe
                && r.prompts_list_changed,
    {
        InitializeResult {
            protocol_version: owned(JSONRPC_VERSION),
            server_name: self.name.clone(),
            server_version: self.version.clone(),
            instructions: copy_opt_string(&self.instructions),
            tools_list_changed: true,
            resources_list_changed: true,
            resources_subscribe: true,
            prompts_list_changed: true,
        }
    }
}

/// Law: with no filtering configured, every tool is listed.
pub proof fn law_unfiltered_lists_all(e: EngineView, key: Seq<char>, tags: Set<Seq<char>>)
    requires
        e.visibility == fresh_filter(),
        e.include_tags.len() == 0,
        e.exclude_tags.len() == 0,
    ensures
        includes(e.visibility, e.include_tags, e.exclude_tags, key, tags),
{
}

/// Law: a component carrying an excluded tag is never listed.
pub proof fn law_excluded_tag_hides(e: EngineView, key: Seq<char>, tags: Set<Seq<char>>, t: Seq<char>)
    requires
        tags.contains(t),
        e.exclude_tags.contains(t),
    ensures
        !includes(e.visibility, e.include_tags, e.exclude_tags, key, tags),
{
}

/// Law: with included tags set, a component none of whose tags is included is
/// not listed.
pub proof fn law_include_tags_restrict(e: EngineView, key: Seq<char>, tags: Set<Seq<char>>)
    requires
        e.include_tags.len() > 0,
        forall|t: Seq<char>| tags.contains(t) ==> !e.include_tags.contains(t),
    ensures
        !includes(e.visibility, e.include_tags, e.exclude_tags, key, tags),
{
}

/// `t` passes the listing filters of the engine state `e`.
pub open spec fn listed_by(e: EngineView, t: ToolView) -> bool {
    includes(e.visibility, e.include_tags, e.exclude_tags, t.name, t.tags)
}

/// Law: a tool listing shows exactly the tools that pass the listing
/// filters: each announced tool is the announcement of a tool that passes,
/// and each tool that passes is announced.
pub proof fn law_listing_shows_exactly_included(e: EngineView, ts: Seq<ToolView>)
    ensures
        forall|j: int| 0 <= j < announce_listed(e, ts).len() ==> exists|i: int|
            0 <= i < ts.len() && listed_by(e, ts[i]) && #[trigger] announce_listed(e, ts)[j]
                == announced(ts[i]),
        forall|i: int| 0 <= i < ts.len() && #[trigger] listed_by(e, ts[i]) ==> exists|j: int|
            0 <= j < announce_listed(e, ts).len() && announce_listed(e, ts)[j] == announced(ts[i]),
    decreases ts.len(),
{
    if ts.len() > 0 {
        let rest = ts.drop_last();
        law_listing_shows_exactly_included(e, rest);
        let a = announce_listed(e, ts);
        let ar = announce_listed(e, rest);
        let t = ts.last();
        assert forall|j: int| 0 <= j < a.len() implies exists|i: int|
            0 <= i < ts.len() && listed_by(e, ts[i]) && #[trigger] a[j] == announced(ts[i]) by {
            if j < ar.len() {
                assert(a[j] == ar[j]);
                let i = choose|i: int| 0 <= i < rest.len() && listed_by(e, rest[i]) && ar[j] == announced(rest[i]);
                assert(ts[i] == rest[i]);
            } else {
                assert(ts[ts.len() - 1] == t);
            }
        }
        assert forall|i: int| 0 <= i < ts.len() && #[trigger] listed_by(e, ts[i]) implies exists|j: int|
            0 <= j < a.len() && a[j] == announced(ts[i]) by {
            if i < ts.len() - 1 {
                assert(rest[i] == ts[i]);
                assert(listed_by(e, rest[i]));
                let j = choose|j: int| 0 <= j < ar.len() && ar[j] == announced(rest[i]);
                assert(a[j] == ar[j]);
            } else {
                assert(a[a.len() - 1] == announced(t));
            }
        }
    }
}

/// Law: after a server is mounted under `ns`, a call of `{ns}_{name}` that no
/// registered tool answers goes to that server, under `name`, unless an
/// earlier mount's prefix already takes the name.
pub proof fn law_mounted_name_routes(mounts: Seq<Seq<char>>, ns: Seq<char>, name: Seq<char>)
    requires
        forall|j: int| 0 <= j < mounts.len() ==> !has_prefix(ns + "_"@ + name, #[trigger] mounts[j] + "_"@),
    ensures
        mount_for(mounts.push(ns), ns + "_"@ + name) == Some(mounts.len() as int),
        after_prefix(ns + "_"@ + name, mounts.push(ns)[mounts.len() as int] + "_"@) == name,
{
    let full = ns + "_"@ + name;
    let p = ns + "_"@;
    let m2 = mounts.push(ns);
    assert(full =~= p + name);
    assert(full.subrange(0, p.len() as int) =~= p);
    assert(m2[mounts.len() as int] == ns);
    assert forall|j: int| 0 <= j < mounts.len() implies !has_prefix(full, #[trigger] m2[j] + "_"@) by {
        assert(m2[j] == mounts[j]);
    }
    lemma_mount_for(m2, full, mounts.len() as int);
    assert(full.subrange(p.len() as int, full.len() as int) =~= name);
}

/// The method names the dispatch knows are pairwise different.
proof fn lemma_method_names_distinct()
    ensures
        "initialize"@ != "notifications/initialized"@,
        "initialize"@ != "ping"@,
        "initialize"@ != "tools/list"@,
        "initialize"@ != "tools/call"@,
        "initialize"@ != "resources/list"@,
        "initialize"@ != "resources/templates/list"@,
        "initialize"@ != "resources/subscribe"@,
        "initialize"@ != "resources/unsubscribe"@,
        "initialize"@ != "resources/read"@,
        "initialize"@ != "prompts/list"@,
        "initialize"@ != "prompts/get"@,
        "notifications/initialized"@ != "ping"@,
        "notifications/initialized"@ != "tools/list"@,
        "notifications/initialized"@ != "tools/call"@,
        "notifications/initialized"@ != "resources/list"@,
        "notifications/initialized"@ != "resources/templates/list"@,
        "notifications/initialized"@ != "resources/subscribe"@,
        "notifications/initialized"@ != "resources/unsubscribe"@,
        "notifications/initialized"@ != "resources/read"@,
        "notifications/initialized"@ != "prompts/list"@,
        "notifications/initialized"@ != "prompts/get"@,
        "ping"@ != "tools/list"@,
        "ping"@ != "tools/call"@,
        "ping"@ != "resources/list"@,
        "ping"@ != "resources/templates/list"@,
        "ping"@ != "resources/subscribe"@,
        "ping"@ != "resources/unsubscribe"@,
        "ping"@ != "resources/read"@,
        "ping"@ != "prompts/list"@,
        "ping"@ != "prompts/get"@,
        "tools/list"@ != "tools/call"@,
        "tools/list"@ != "resources/list"@,
        "tools/list"@ != "resources/templates/list"@,
        "tools/list"@ != "resources/subscribe"@,
        "tools/list"@ != "resources/unsubscribe"@,
        "tools/list"@ != "resources/read"@,
        "tools/list"@ != "prompts/list"@,
        "tools/list"@ != "prompts/get"@,
        "tools/call"@ != "resources/list"@,
        "tools/call"@ != "resources/templates/list"@,
        "tools/call"@ != "resources/subscribe"@,
        "tools/call"@ != "resources/unsubscribe"@,
        "tools/call"@ != "resources/read"@,
        "tools/call"@ != "prompts/list"@,
        "tools/call"@ != "prompts/get"@,
        "resources/list"@ != "resources/templates/list"@,
        "resources/list"@ != "resources/subscribe"@,
        "resources/list"@ != "resources/unsubscribe"@,
        "resources/list"@ != "resources/read"@,
        "resources/list"@ != "prompts/list"@,
        "resources/list"@ != "prompts/get"@,
        "resources/templates/list"@ != "resources/subscribe"@,
        "resources/templates/list"@ != "resources/unsubscribe"@,
        "resources/templates/list"@ != "resources/read"@,
        "resources/templates/list"@ != "prompts/list"@,
        "resources/templates/list"@ != "prompts/get"@,
        "resources/subscribe"@ != "resources/unsubscribe"@,
        "resources/subscribe"@ != "resources/read"@,
        "resources/subscribe"@ != "prompts/list"@,
        "resources/subscribe"@ != "prompts/get"@,
        "resources/unsubscribe"@ != "resources/read"@,
        "resources/unsubscribe"@ != "prompts/list"@,
        "resources/unsubscribe"@ != "prompts/get"@,
        "resources/read"@ != "prompts/list"@,
        "resources/read"@ != "prompts/get"@,
        "prompts/list"@ != "prompts/get"@,
{
    reveal_strlit("initialize");
    reveal_strlit("notifications/initialized");
    reveal_strlit("ping");
    reveal_strlit("tools/list");
    reveal_strlit("tools/call");
    reveal_strlit("resources/list");
    reveal_strlit("resources/templates/list");
    reveal_strlit("resources/subscribe");
    reveal_strlit("resources/unsubscribe");
    reveal_strlit("resources/read");
    reveal_strlit("prompts/list");
    reveal_strlit("prompts/get");
    assert("initialize"@.len() == 10);
    assert("notifications/initialized"@.len() == 25);
    assert("ping"@.len() == 4);
    assert("tools/list"@.len() == 10);
    assert("tools/call"@.len() == 10);
    assert("resources/list"@.len() == 14);
    assert("resources/templates/list"@.len() == 24);
    assert("resources/subscribe"@.len() == 19);
    assert("resources/unsubscribe"@.len() == 21);
    assert("resources/read"@.len() == 14);
    assert("prompts/list"@.len() == 12);
    assert("prompts/get"@.len() == 11);
    assert("initialize"@[0] != "tools/list"@[0]);
    assert("initialize"@[0] != "tools/call"@[0]);
    assert("tools/list"@[6] != "tools/call"@[6]);
    assert("resources/list"@[10] != "resources/read"@[10]);
}

/// Law: the methods without parameters go where their names say: `initialize`
/// is answered with the initialisation, `notifications/initialized` with
/// `null`, `ping` with `"pong"`, and each listing method to its listing.
pub proof fn law_route_plain_methods(req: JsonRpcRequest)
    ensures
        req.method@ == "initialize"@ ==> route_of(req) == Ok::<_, Seq<char>>(RouteView::Initialize),
        req.method@ == "notifications/initialized"@ ==> route_of(req) == Ok::<_, Seq<char>>(
            RouteView::Respond(JsonView::Null),
        ),
        req.method@ == "ping"@ ==> route_of(req) == Ok::<_, Seq<char>>(RouteView::Respond(JsonView::Str("pong"@))),
        req.method@ == "tools/list"@ ==> route_of(req) == Ok::<_, Seq<char>>(RouteView::ListTools),
        req.method@ == "resources/list"@ ==> route_of(req) == Ok::<_, Seq<char>>(RouteView::ListResources),
        req.method@ == "resources/templates/list"@ ==> route_of(req) == Ok::<_, Seq<char>>(
            RouteView::ListResourceTemplates,
        ),
        req.method@ == "prompts/list"@ ==> route_of(req) == Ok::<_, Seq<char>>(RouteView::ListPrompts),
{
    lemma_method_names_distinct();
}

/// Law: `resources/subscribe` subscribes to the resource named by the `uri`
/// parameter, `resources/unsubscribe` unsubscribes from it and
/// `resources/read` reads it; without a string `uri` each is refused with
/// "Missing resource uri".
pub proof fn law_route_resource_methods(req: JsonRpcRequest)
    ensures
        param_str(req, "uri"@) matches Some(u) ==> {
            &&& req.method@ == "resources/subscribe"@ ==> route_of(req) == Ok::<_, Seq<char>>(
                RouteView::SubscribeResource(u),
            )
            &&& req.method@ == "resources/unsubscribe"@ ==> route_of(req) == Ok::<_, Seq<char>>(
                RouteView::UnsubscribeResource(u),
            )
            &&& req.method@ == "resources/read"@ ==> route_of(req) == Ok::<_, Seq<char>>(
                RouteView::ReadResource(u),
            )
        },
        param_str(req, "uri"@) is None ==> {
            &&& req.method@ == "resources/subscribe"@ ==> route_of(req) == Err::<RouteView, _>(
                "Missing resource uri"@,
            )
            &&& req.method@ == "resources/unsubscribe"@ ==> route_of(req) == Err::<RouteView, _>(
                "Missing resource uri"@,
            )
            &&& req.method@ == "resources/read"@ ==> route_of(req) == Err::<RouteView, _>(
                "Missing resource uri"@,
            )
        },
{
    lemma_method_names_distinct();
}

/// Law: `tools/call` calls the tool named by the `name` parameter with the
/// `arguments` parameter (an empty object when there is none), and
/// `prompts/get` renders the prompt named by `name` with the optional
/// `arguments`; without a string `name` each is refused.
pub proof fn law_route_named_methods(req: JsonRpcRequest)
    ensures
        req.method@ == "tools/call"@ ==> match param_str(req, "name"@) {
            Some(n) => route_of(req) == Ok::<_, Seq<char>>(
                RouteView::CallTool(
                    n,
                    match param(req, "arguments"@) {
                        Some(a) => json_view(a),
                        None => JsonView::Object(Seq::empty()),
                    },
                ),
            ),
            None => route_of(req) == Err::<RouteView, _>("Missing tool name"@),
        },
        req.method@ == "prompts/get"@ ==> match param_str(req, "name"@) {
            Some(n) => route_of(req) == Ok::<_, Seq<char>>(
                RouteView::GetPrompt(
                    n,
                    match param(req, "arguments"@) {
                        Some(a) => Some(json_view(a)),
                        None => None,
                    },
                ),
            ),
            None => route_of(req) == Err::<RouteView, _>("Missing prompt name"@),
        },
{
    lemma_method_names_distinct();
}

/// Law: a method the dispatch does not know is refused with "Method not found".
pub proof fn law_route_unknown_method(req: JsonRpcRequest)
    requires
        req.method@ != "initialize"@,
        req.method@ != "notifications/initialized"@,
        req.method@ != "ping"@,
        req.method@ != "tools/list"@,
        req.method@ != "tools/call"@,
        req.method@ != "resources/list"@,
        req.method@ != "resources/templates/list"@,
        req.method@ != "resources/subscribe"@,
        req.method@ != "resources/unsubscribe"@,
        req.method@ != "resources/read"@,
        req.method@ != "prompts/list"@,
        req.method@ != "prompts/get"@,
    ensures
        route_of(req) == Err::<RouteView, _>("Method not found"@),
{
}

/// Law: a function tool is announced under its own name, title and
/// description, with the input and output schemas of its function; any other
/// tool with an empty object as input schema and no output schema.
pub proof fn law_announced_tool(t: ToolView)
    ensures
        announced(t).name == t.name,
        announced(t).title == t.title,
        announced(t).description == t.description,
        t.data matches ToolKindView::Function(f) ==> announced(t).input_schema == f.input_schema
            && announced(t).output_schema == f.output_schema,
        !(t.data is Function) ==> announced(t).input_schema == JsonView::Object(Seq::empty())
            && announced(t).output_schema is None,
{
}

/// Law: without filtering, the `tools/list` announcement of a list of tools
/// announces each of them, in order, as [`law_announced_tool`] says.
pub proof fn law_unfiltered_announce_lists_each(e: EngineView, tools: Seq<ToolView>)
    requires
        forall|i: int| 0 <= i < tools.len() ==> #[trigger] includes(
            e.visibility,
            e.include_tags,
            e.exclude_tags,
            tools[i].name,
            tools[i].tags,
        ),
    ensures
        announce_listed(e, tools).len() == tools.len(),
        forall|i: int| 0 <= i < tools.len() ==> #[trigger] announce_listed(e, tools)[i] == announced(tools[i]),
    decreases tools.len(),
{
    if tools.len() > 0 {
        let init = tools.drop_last();
        assert forall|i: int| 0 <= i < init.len() implies #[trigger] includes(
            e.visibility,
            e.include_tags,
            e.exclude_tags,
            init[i].name,
            init[i].tags,
        ) by {
            assert(init[i] == tools[i]);
        }
        law_unfiltered_announce_lists_each(e, init);
        assert(includes(e.visibility, e.include_tags, e.exclude_tags, tools[tools.len() - 1].name, tools[tools.len() - 1].tags));
        assert forall|i: int| 0 <= i < tools.len() implies #[trigger] announce_listed(e, tools)[i] == announced(tools[i]) by {
            if i < tools.len() - 1 {
                assert(init[i] == tools[i]);
            }
        }
    }
}

} // verus!
