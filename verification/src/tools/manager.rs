//! Registry of tools: registration under a duplicate strategy, lookup,
//! invocation counting and "did you mean" suggestions.

use vstd::prelude::*;
use crate::error::FastMCPError;
use crate::server::strategy::DuplicateStrategy;
use crate::tools::tool::{Tool, ToolFunction, ToolFunctionView, ToolKind, ToolKindView, ToolView};
use crate::util::text::owned;
use dashmap::DashMap;
use crate::mcp::types::{JsonValue, JsonView};
use crate::util::json_schema::{check_against_schema, schema_check, SchemaCheck, SchemaCheckView};

verus! {

/// The smallest of three numbers.
pub open spec fn min3(x: nat, y: nat, z: nat) -> nat {
    if x <= y && x <= z {
        x
    } else if y <= z {
        y
    } else {
        z
    }
}

/// The Levenshtein edit distance between two character sequences: the least
/// number of single-character insertions, deletions and substitutions that
/// turn `a` into `b` (what `strsim::levenshtein` computes, over `char`s).
pub open spec fn levenshtein_distance(a: Seq<char>, b: Seq<char>) -> nat
    decreases a.len() + b.len(),
{
    if a.len() == 0 {
        b.len()
    } else if b.len() == 0 {
        a.len()
    } else {
        min3(
            levenshtein_distance(a.drop_last(), b) + 1,
            levenshtein_distance(a, b.drop_last()) + 1,
            levenshtein_distance(a.drop_last(), b.drop_last()) + if a.last() == b.last() {
                0nat
            } else {
                1nat
            },
        )
    }
}

/// Wraps `strsim::levenshtein`.
#[verifier::external_body]
fn levenshtein(a: &str, b: &str) -> (r: usize)
    ensures
        r as nat == levenshtein_distance(a@, b@),
{
    strsim::levenshtein(a, b)
}

/// A tool together with its invocation counter.
pub struct RegisteredTool {
    pub tool: Tool,
    pub call_count: usize,
}

/// Model of a registry entry.
pub ghost struct EntryView {
    pub tool: ToolView,
    pub calls: usize,
}

impl View for RegisteredTool {
    type V = EntryView;

    open spec fn view(&self) -> EntryView {
        EntryView { tool: self.tool@, calls: self.call_count }
    }
}

/// What a tool registry map holds, keyed by tool name.
pub uninterp spec fn registry_entries(m: DashMap<String, RegisteredTool>) -> Map<Seq<char>, EntryView>;

/// Wraps `DashMap::new`: an empty registry map.
#[verifier::external_body]
fn registry_new() -> (r: DashMap<String, RegisteredTool>)
    ensures
        registry_entries(r) =~= Map::empty(),
{
    DashMap::new()
}

/// Wraps `DashMap::insert`: the name now maps to the entry.
#[verifier::external_body]
fn registry_insert(m: &mut DashMap<String, RegisteredTool>, key: String, value: RegisteredTool)
    ensures
        registry_entries(*final(m)) == registry_entries(*old(m)).insert(key@, value@),
{
    m.insert(key, value);
}

/// Wraps `DashMap::remove`: the name no longer maps to anything.
#[verifier::external_body]
fn registry_remove(m: &mut DashMap<String, RegisteredTool>, key: &str)
    ensures
        registry_entries(*final(m)) == registry_entries(*old(m)).remove(key@),
{
    m.remove(key);
}

/// Wraps `DashMap::contains_key`.
#[verifier::external_body]
fn registry_contains(m: &DashMap<String, RegisteredTool>, key: &str) -> (r: bool)
    ensures
        r == registry_entries(*m).contains_key(key@),
{
    m.contains_key(key)
}

/// Wraps `DashMap::get`, handing out a copy of the entry's tool.
#[verifier::external_body]
fn registry_get_tool(m: &DashMap<String, RegisteredTool>, key: &str) -> (r: Option<Tool>)
    ensures
        match r {
            Some(t) => registry_entries(*m).contains_key(key@) && t@ == registry_entries(*m)[key@].tool,
            None => !registry_entries(*m).contains_key(key@),
        },
{
    m.get(key).map(|entry| entry.value().tool.clone())
}

/// Wraps `DashMap::get`, handing out the entry's call count.
#[verifier::external_body]
fn registry_get_count(m: &DashMap<String, RegisteredTool>, key: &str) -> (r: Option<usize>)
    ensures
        match r {
            Some(c) => registry_entries(*m).contains_key(key@) && c == registry_entries(*m)[key@].calls,
            None => !registry_entries(*m).contains_key(key@),
        },
{
    m.get(key).map(|entry| entry.value().call_count)
}

/// Wraps `DashMap::iter`, handing out each name with a copy of its tool. The
/// order is that of the map's shards and is left open; each entry comes out
/// once.
#[verifier::external_body]
fn registry_snapshot(m: &DashMap<String, RegisteredTool>) -> (r: Vec<(String, Tool)>)
    ensures
        r@.len() == registry_entries(*m).len(),
        forall|i: int| 0 <= i < r@.len() ==> registry_entries(*m).contains_key(#[trigger] r@[i].0@)
            && r@[i].1@ == registry_entries(*m)[r@[i].0@].tool,
        forall|k: Seq<char>| #[trigger]
            registry_entries(*m).contains_key(k) ==> exists|i: int| 0 <= i < r@.len() && r@[i].0@ == k,
        forall|i: int, j: int| 0 <= i < r@.len() && 0 <= j < r@.len() && i != j ==> r@[i].0@ != r@[j].0@,
{
    m.iter().map(|entry| (entry.key().clone(), entry.value().tool.clone())).collect()
}

/// `s` lists the tools of the registry `reg`, each once, in some order.
pub open spec fn lists_registry(reg: Map<Seq<char>, EntryView>, s: Seq<ToolView>) -> bool {
    &&& s.len() == reg.len()
    &&& forall|i: int| 0 <= i < s.len() ==> reg.contains_key(#[trigger] s[i].name) && s[i] == reg[s[i].name].tool
    &&& forall|k: Seq<char>| #[trigger] reg.contains_key(k) ==> exists|i: int| 0 <= i < s.len() && s[i].name == k
    &&& forall|i: int, j: int| 0 <= i < s.len() && 0 <= j < s.len() && i != j ==> s[i].name != s[j].name
}

/// The tool as it is stored at registration: a function tool without a
/// prepared schema gets its input schema as prepared schema.
pub open spec fn prepared(t: ToolView) -> ToolView {
    match t.data {
        ToolKindView::Function(f) => if f.compiled_schema.is_none() {
            ToolView {
                data: ToolKindView::Function(
                    ToolFunctionView { compiled_schema: Some(f.input_schema), ..f },
                ),
                ..t
            }
        } else {
            t
        },
        _ => t,
    }
}

/// Whether registering a tool with an existing name replaces the entry.
pub open spec fn replaces(s: DuplicateStrategy) -> bool {
    s == DuplicateStrategy::Warn || s == DuplicateStrategy::Replace
}

/// One more call, wrapping at the counter's maximum.
pub open spec fn next_count(c: usize) -> usize {
    if c == usize::MAX {
        0
    } else {
        (c + 1) as usize
    }
}

/// The schema arguments are checked against: the prepared schema, else the
/// input schema.
pub open spec fn validation_schema(f: ToolFunctionView) -> JsonView {
    match f.compiled_schema {
        Some(s) => s,
        None => f.input_schema,
    }
}

/// The error reported for arguments that violate a function's schema, if
/// they do.
pub open spec fn arguments_error(f: ToolFunctionView, args: JsonView) -> Option<Seq<char>> {
    match schema_check(validation_schema(f), args) {
        SchemaCheckView::Invalid(e, p) => Some("Invalid arguments: "@ + e + " at "@ + p),
        _ => None,
    }
}

/// The message reporting an unknown tool, with a suggestion when there is one.
pub open spec fn not_found_message(name: Seq<char>, suggestion: Option<Seq<char>>) -> Seq<char> {
    match suggestion {
        Some(s) => "Tool not found: "@ + name + ". Did you mean '"@ + s + "'?"@,
        None => "Tool not found: "@ + name,
    }
}

/// `s` is a name at distance at most 3 from `name`, and no registered name is closer.
pub open spec fn is_best_suggestion(reg: Map<Seq<char>, EntryView>, name: Seq<char>, s: Seq<char>) -> bool {
    &&& reg.contains_key(s)
    &&& levenshtein_distance(name, s) <= 3
    &&& forall|k: Seq<char>| #[trigger]
        reg.contains_key(k) ==> levenshtein_distance(name, k) >= levenshtein_distance(name, s)
}

/// No registered name is within distance 3 of `name`.
pub open spec fn no_suggestion(reg: Map<Seq<char>, EntryView>, name: Seq<char>) -> bool {
    forall|k: Seq<char>| #[trigger] reg.contains_key(k) ==> levenshtein_distance(name, k) > 3
}

/// Registry of tools.
pub struct ToolManager {
    tools: DashMap<String, RegisteredTool>,
    strategy: DuplicateStrategy,
}

impl View for ToolManager {
    type V = Map<Seq<char>, EntryView>;

    closed spec fn view(&self) -> Map<Seq<char>, EntryView> {
        registry_entries(self.tools)
    }
}

impl ToolManager {
    /// Each tool is stored under its own name.
    #[verifier::type_invariant]
    spec fn keyed_by_name(self) -> bool {
        forall|k: Seq<char>| #[trigger]
            registry_entries(self.tools).contains_key(k) ==> registry_entries(self.tools)[k].tool.name == k
    }

    /// The duplicate strategy in force.
    pub closed spec fn spec_strategy(self) -> DuplicateStrategy {
        self.strategy
    }

    /// An empty registry with the default (warn) strategy.
    pub fn new() -> (r: ToolManager)
        ensures
            r@ == Map::<Seq<char>, EntryView>::empty(),
            r.spec_strategy() == DuplicateStrategy::Warn,
    {
        ToolManager { tools: registry_new(), strategy: DuplicateStrategy::Warn }
    }

    /// Changes the strategy used when a duplicate tool name is registered.
    pub fn set_strategy(&mut self, strategy: DuplicateStrategy)
        ensures
            final(self)@ == old(self)@,
            final(self).spec_strategy() == strategy,
    {
        proof {
            use_type_invariant(&*self);
        }
        self.strategy = strategy;
    }

    /// Stores `entry` under its tool's name.
    fn store(&mut self, entry: RegisteredTool)
        ensures
            final(self)@ == old(self)@.insert(entry.tool.name@, entry@),
            final(self).spec_strategy() == old(self).spec_strategy(),
    {
        proof {
            use_type_invariant(&*self);
        }
        let mut tools = registry_new();
        std::mem::swap(&mut tools, &mut self.tools);
        let name = entry.tool.name.clone();
        registry_insert(&mut tools, name, entry);
        self.tools = tools;
    }

    /// Registers a tool under its name. A new name is added with no calls. An
    /// existing name is handled by the strategy: `Warn` and `Replace` replace
    /// the entry (its call count starts again), `Ignore` keeps the existing
    /// entry, `Error` keeps it and reports the duplicate.
    pub fn register(&mut self, tool: Tool) -> (r: Result<(), FastMCPError>)
        ensures
            final(self).spec_strategy() == old(self).spec_strategy(),
            !old(self)@.contains_key(tool.name@) ==> r.is_ok() && final(self)@ == old(self)@.insert(
                tool.name@,
                EntryView { tool: prepared(tool@), calls: 0 },
            ),
            old(self)@.contains_key(tool.name@) && replaces(old(self).spec_strategy()) ==> r.is_ok()
                && final(self)@ == old(self)@.insert(
                tool.name@,
                EntryView { tool: prepared(tool@), calls: 0 },
            ),
            old(self)@.contains_key(tool.name@) && old(self).spec_strategy()
                == DuplicateStrategy::Ignore ==> r.is_ok() && final(self)@ == old(self)@,
            old(self)@.contains_key(tool.name@) && old(self).spec_strategy()
                == DuplicateStrategy::Error ==> (r matches Err(FastMCPError::InvalidRequest(m)) && m@
                == "Duplicate tool: "@ + tool.name@) && final(self)@ == old(self)@,
    {
        let tool = prepare(tool);
        if registry_contains(&self.tools, tool.name.as_str()) {
            match self.strategy {
                DuplicateStrategy::Error => {
                    let mut m = owned("Duplicate tool: ");
                    m.append(tool.name.as_str());
                    Err(FastMCPError::InvalidRequest(m))
                },
                DuplicateStrategy::Ignore => Ok(()),
                _ => {
                    self.store(RegisteredTool { tool, call_count: 0 });
                    Ok(())
                },
            }
        } else {
            self.store(RegisteredTool { tool, call_count: 0 });
            Ok(())
        }
    }

    /// Looks up a tool by name.
    pub fn get_tool(&self, name: &str) -> (r: Option<Tool>)
        ensures
            match r {
                Some(t) => self@.contains_key(name@) && t@ == self@[name@].tool,
                None => !self@.contains_key(name@),
            },
    {
        registry_get_tool(&self.tools, name)
    }

    /// All registered tools, each once, in the order the map hands them out.
    pub fn list_tools(&self) -> (r: Vec<Tool>)
        ensures
            lists_registry(self@, r@.map_values(|t: Tool| t@)),
    {
        proof {
            use_type_invariant(self);
        }
        let entries = registry_snapshot(&self.tools);
        let mut out: Vec<Tool> = Vec::new();
        let mut i: usize = 0;
        while i < entries.len()
            invariant
                i <= entries@.len(),
                out@.len() == i,
                forall|j: int| 0 <= j < i ==> #[trigger] out@[j]@ == entries@[j].1@,
            decreases entries@.len() - i,
        {
            out.push(entries[i].1.clone());
            i = i + 1;
        }
        proof {
            use_type_invariant(self);
            let s = out@.map_values(|t: Tool| t@);
            assert forall|j: int| 0 <= j < s.len() implies self@.contains_key(#[trigger] s[j].name)
                && s[j] == self@[s[j].name].tool by {
                assert(s[j] == entries@[j].1@);
                assert(self@.contains_key(entries@[j].0@));
            }
            assert forall|k: Seq<char>| #[trigger] self@.contains_key(k) implies exists|j: int|
                0 <= j < s.len() && s[j].name == k by {
                let j = choose|j: int| 0 <= j < entries@.len() && entries@[j].0@ == k;
                assert(s[j] == entries@[j].1@);
            }
            assert forall|a: int, b: int| 0 <= a < s.len() && 0 <= b < s.len() && a != b implies s[a].name
                != s[b].name by {
                assert(s[a] == entries@[a].1@);
                assert(s[b] == entries@[b].1@);
                assert(self@.contains_key(entries@[a].0@));
                assert(self@.contains_key(entries@[b].0@));
            }
        }
        out
    }

    /// The number of times a tool has been invoked.
    pub fn get_usage(&self, name: &str) -> (r: Option<usize>)
        ensures
            match r {
                Some(c) => self@.contains_key(name@) && c == self@[name@].calls,
                None => !self@.contains_key(name@),
            },
    {
        registry_get_count(&self.tools, name)
    }

    /// Removes a tool by name.
    pub fn remove_tool(&mut self, name: &str)
        ensures
            final(self)@ == old(self)@.remove(name@),
            final(self).spec_strategy() == old(self).spec_strategy(),
    {
        proof {
            use_type_invariant(&*self);
        }
        let mut tools = registry_new();
        std::mem::swap(&mut tools, &mut self.tools);
        registry_remove(&mut tools, name);
        self.tools = tools;
    }

    /// The registered name closest to `name` by edit distance, when one is
    /// within distance 3.
    pub fn suggestion(&self, name: &str) -> (r: Option<String>)
        ensures
            match r {
                Some(s) => is_best_suggestion(self@, name@, s@),
                None => no_suggestion(self@, name@),
            },
    {
        let entries = registry_snapshot(&self.tools);
        let mut best: Option<usize> = None;
        let mut min_dist: usize = usize::MAX;
        let mut i: usize = 0;
        while i < entries.len()
            invariant
                i <= entries@.len(),
                match best {
                    Some(b) => b < i && min_dist as nat == levenshtein_distance(name@, entries@[b as int].0@)
                        && min_dist <= 3,
                    None => min_dist == usize::MAX,
                },
                forall|j: int| 0 <= j < i ==> levenshtein_distance(name@, #[trigger] entries@[j].0@) > 3
                    || levenshtein_distance(name@, entries@[j].0@) >= min_dist,
            decreases entries@.len() - i,
        {
            let d = levenshtein(name, entries[i].0.as_str());
            if d < min_dist && d <= 3 {
                min_dist = d;
                best = Some(i);
            }
            i = i + 1;
        }
        match best {
            Some(b) => {
                proof {
                    assert forall|k: Seq<char>| #[trigger] self@.contains_key(k) implies levenshtein_distance(name@, k)
                        >= levenshtein_distance(name@, entries@[b as int].0@) by {
                        let j = choose|j: int| 0 <= j < entries@.len() && entries@[j].0@ == k;
                        assert(levenshtein_distance(name@, entries@[j].0@) > 3
                            || levenshtein_distance(name@, entries@[j].0@) >= min_dist);
                    }
                }
                Some(entries[b].0.clone())
            },
            None => {
                proof {
                    assert forall|k: Seq<char>| #[trigger] self@.contains_key(k) implies levenshtein_distance(name@, k)
                        > 3 by {
                        let j = choose|j: int| 0 <= j < entries@.len() && entries@[j].0@ == k;
                        assert(levenshtein_distance(name@, entries@[j].0@) > 3
                            || levenshtein_distance(name@, entries@[j].0@) >= usize::MAX);
                    }
                }
                None
            },
        }
    }

    /// Records a call of tool `name` with `arguments` and returns the tool to
    /// run. An unknown name is reported, with a suggestion when a registered
    /// name is within distance 3; arguments that violate the tool's schema
    /// (its prepared schema, else its input schema) are reported; a
    /// transformed tool is counted but cannot run.
    pub fn call_tool(&mut self, name: &str, arguments: &JsonValue) -> (r: Result<Tool, FastMCPError>)
        ensures
            final(self).spec_strategy() == old(self).spec_strategy(),
            !old(self)@.contains_key(name@) ==> final(self)@ == old(self)@ && (r matches Err(
                FastMCPError::InvalidRequest(m),
            ) && (exists|s: Option<Seq<char>>|
                (match s {
                    Some(x) => is_best_suggestion(old(self)@, name@, x),
                    None => no_suggestion(old(self)@, name@),
                }) && m@ == not_found_message(name@, s))),
            old(self)@.contains_key(name@) ==> final(self)@ == old(self)@.insert(
                name@,
                EntryView {
                    tool: old(self)@[name@].tool,
                    calls: next_count(old(self)@[name@].calls),
                },
            ) && match old(self)@[name@].tool.data {
                ToolKindView::Function(f) => match arguments_error(f, arguments@) {
                    Some(e) => r matches Err(FastMCPError::InvalidRequest(m)) && m@ == e,
                    None => r matches Ok(t) && t@ == old(self)@[name@].tool,
                },
                ToolKindView::Transformed(_) => r matches Err(FastMCPError::Message(m)) && m@
                    == "Transformed tools not supported yet"@,
            },
    {
        proof {
            use_type_invariant(&*self);
        }
        match (registry_get_tool(&self.tools, name), registry_get_count(&self.tools, name)) {
            (Some(tool), Some(c)) => {
                let next = if c == usize::MAX {
                    0
                } else {
                    c + 1
                };
                let entry = RegisteredTool { tool: tool.clone(), call_count: next };
                self.store(entry);
                match &tool.data {
                    ToolKind::Function(f) => {
                        let schema = match &f.compiled_schema {
                            Some(c) => c,
                            None => &f.input_schema,
                        };
                        match check_against_schema(schema, arguments) {
                            SchemaCheck::Invalid { error, path } => {
                                let mut m = owned("Invalid arguments: ");
                                m.append(error.as_str());
                                m.append(" at ");
                                m.append(path.as_str());
                                Err(FastMCPError::InvalidRequest(m))
                            },
                            _ => Ok(tool),
                        }
                    },
                    ToolKind::Transformed { .. } => Err(
                        FastMCPError::Message(owned("Transformed tools not supported yet")),
                    ),
                }
            },
            _ => {
                let s = self.suggestion(name);
                let ghost gs = crate::util::text::opt_chars(s);
                let mut m = owned("Tool not found: ");
                m.append(name);
                match &s {
                    Some(x) => {
                        m.append(". Did you mean '");
                        m.append(x.as_str());
                        m.append("'?");
                    },
                    None => {},
                }
                assert(m@ == not_found_message(name@, gs));
                Err(FastMCPError::InvalidRequest(m))
            },
        }
    }
}

/// The tool as stored: a function tool without prepared schema gets a copy of
/// its input schema (`optimize_schema`).
fn prepare(tool: Tool) -> (r: Tool)
    ensures
        r@ == prepared(tool@),
{
    let crate::util::component::Component { name, title, description, tags, meta, enabled, key, data } =
        tool;
    let data = match data {
        ToolKind::Function(f) => {
            if f.compiled_schema.is_none() {
                let compiled = crate::util::json_schema::optimize_schema(&f.input_schema);
                ToolKind::Function(ToolFunction { compiled_schema: Some(compiled), ..f })
            } else {
                ToolKind::Function(f)
            }
        },
        other => other,
    };
    crate::util::component::Component { name, title, description, tags, meta, enabled, key, data }
}

impl Default for ToolManager {
    fn default() -> (r: ToolManager)
        ensures
            r@ == Map::<Seq<char>, EntryView>::empty(),
            r.spec_strategy() == DuplicateStrategy::Warn,
    {
        ToolManager::new()
    }
}

} // verus!
