//! Per-request execution context.

use vstd::prelude::*;
use std::sync::Arc;
use dashmap::DashMap;
use crate::mcp::types::{JsonValue, JsonView};
use crate::util::string_map::StringMap;

verus! {

/// What a key-value store of a context holds.
pub uninterp spec fn store_entries(m: DashMap<String, JsonValue>) -> Map<Seq<char>, JsonView>;

/// Wraps `DashMap::new`: an empty store.
#[verifier::external_body]
fn store_new() -> (r: DashMap<String, JsonValue>)
    ensures
        store_entries(r) =~= Map::empty(),
{
    DashMap::new()
}

/// Wraps `DashMap::insert`: the key now maps to the value.
#[verifier::external_body]
fn store_insert(m: &mut DashMap<String, JsonValue>, key: String, value: JsonValue)
    ensures
        store_entries(*final(m)) == store_entries(*old(m)).insert(key@, value@),
{
    m.insert(key, value);
}

/// Wraps `DashMap::get`, handing out a copy of the stored value.
#[verifier::external_body]
fn store_get(m: &DashMap<String, JsonValue>, key: &str) -> (r: Option<JsonValue>)
    ensures
        match r {
            Some(v) => store_entries(*m).contains_key(key@) && v@ == store_entries(*m)[key@],
            None => !store_entries(*m).contains_key(key@),
        },
{
    m.get(key).map(|entry| entry.value().clone())
}

/// Per-request execution context passed to tool, resource, and prompt handlers.
///
/// A fresh `Context` is created for each request. Handlers can read caller
/// identity from the id fields, share data within a session via
/// `session_data`, or store per-request values in the state store.
pub struct Context {
    /// JSON-RPC request id of the triggering request, if known.
    pub request_id: Option<String>,
    /// Identifier of the authenticated client, if authentication is active.
    pub client_id: Option<String>,
    /// Transport session identifier (e.g. SSE session id).
    pub session_id: Option<String>,
    /// Key-value store shared across all requests within the same session.
    pub session_data: Arc<DashMap<String, JsonValue>>,
    /// Variables extracted from URI template placeholders during resource reads.
    pub arguments: StringMap,
    /// Key-value store scoped to this request only.
    pub state: DashMap<String, JsonValue>,
    /// Set when a handler reports that the tool list changed.
    pub tools_changed: bool,
    /// Set when a handler reports that the resource list changed.
    pub resources_changed: bool,
    /// Set when a handler reports that the prompt list changed.
    pub prompts_changed: bool,
}

impl Context {
    /// The per-request state store.
    pub open spec fn state(self) -> Map<Seq<char>, JsonView> {
        store_entries(self.state)
    }

    /// A context with the given identifiers, empty stores and no changes
    /// reported.
    pub fn new(request_id: Option<String>, client_id: Option<String>, session_id: Option<String>) -> (r:
        Context)
        ensures
            r.request_id == request_id,
            r.client_id == client_id,
            r.session_id == session_id,
            r.arguments@ =~= Map::empty(),
            r.state() =~= Map::empty(),
            !r.tools_changed && !r.resources_changed && !r.prompts_changed,
    {
        Context {
            request_id,
            client_id,
            session_id,
            session_data: Arc::new(store_new()),
            arguments: StringMap::new(),
            state: store_new(),
            tools_changed: false,
            resources_changed: false,
            prompts_changed: false,
        }
    }

    /// The context with `session_data` as its session store (to share one
    /// store between contexts); everything else is kept.
    pub fn with_session_data(self, session_data: Arc<DashMap<String, JsonValue>>) -> (r: Context)
        ensures
            r.session_data == session_data,
            r.request_id == self.request_id,
            r.client_id == self.client_id,
            r.session_id == self.session_id,
            r.arguments == self.arguments,
            r.state() == self.state(),
            r.tools_changed == self.tools_changed,
            r.resources_changed == self.resources_changed,
            r.prompts_changed == self.prompts_changed,
    {
        Context { session_data, ..self }
    }

    /// The value stored under `key` in the per-request state.
    pub fn get_state(&self, key: &str) -> (r: Option<JsonValue>)
        ensures
            match r {
                Some(v) => self.state().contains_key(key@) && v@ == self.state()[key@],
                None => !self.state().contains_key(key@),
            },
    {
        store_get(&self.state, key)
    }

    /// Stores `value` under `key` in the per-request state.
    pub fn set_state(&mut self, key: String, value: JsonValue)
        ensures
            final(self).state() == old(self).state().insert(key@, value@),
            final(self).request_id == old(self).request_id,
            final(self).client_id == old(self).client_id,
            final(self).session_id == old(self).session_id,
            final(self).arguments == old(self).arguments,
            final(self).tools_changed == old(self).tools_changed,
            final(self).resources_changed == old(self).resources_changed,
            final(self).prompts_changed == old(self).prompts_changed,
    {
        store_insert(&mut self.state, key, value);
    }

    /// Flags that the tool list has changed.
    pub fn report_tool_list_changed(&mut self)
        ensures
            final(self).tools_changed,
            final(self).resources_changed == old(self).resources_changed,
            final(self).prompts_changed == old(self).prompts_changed,
            final(self).state() == old(self).state(),
    {
        self.tools_changed = true;
    }

    /// Flags that the resource list has changed.
    pub fn report_resource_list_changed(&mut self)
        ensures
            final(self).resources_changed,
            final(self).tools_changed == old(self).tools_changed,
            final(self).prompts_changed == old(self).prompts_changed,
            final(self).state() == old(self).state(),
    {
        self.resources_changed = true;
    }

    /// Flags that the prompt list has changed.
    pub fn report_prompt_list_changed(&mut self)
        ensures
            final(self).prompts_changed,
            final(self).tools_changed == old(self).tools_changed,
            final(self).resources_changed == old(self).resources_changed,
            final(self).state() == old(self).state(),
    {
        self.prompts_changed = true;
    }
}

impl Default for Context {
    fn default() -> (r: Context)
        ensures
            r.request_id is None,
            r.client_id is None,
            r.session_id is None,
            r.arguments@ =~= Map::empty(),
            r.state() =~= Map::empty(),
    {
        Context::new(None, None, None)
    }
}

} // verus!
