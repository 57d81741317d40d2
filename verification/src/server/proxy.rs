//! Mounting a remote MCP server: the local names and descriptions of the
//! components it mirrors.
//!
//! The client that talks to the remote server, and the handlers that forward
//! calls to it, belong to the application.

use vstd::prelude::*;
use crate::error::FastMCPError;
use crate::mcp::types::JsonValue;
use crate::tools::tool::{opt_json, Tool, ToolFunction, ToolKind, ToolKindView};
use crate::util::component::Component;
use crate::util::string_set::StringSet;
use crate::util::text::owned;

verus! {

/// The local name of a remote component: `{prefix}_{name}`, or the remote
/// name itself when the prefix is empty.
pub open spec fn local_name(prefix: Seq<char>, name: Seq<char>) -> Seq<char> {
    if prefix.len() == 0 {
        name
    } else {
        prefix + "_"@ + name
    }
}

/// A remote MCP server mirrored under a name prefix.
pub struct MountedServer {
    prefix: String,
}

impl MountedServer {
    /// The prefix put before the names of the mirrored components.
    pub closed spec fn spec_prefix(self) -> Seq<char> {
        self.prefix@
    }

    /// A mount that mirrors components under `prefix`.
    pub fn new(prefix: &str) -> (r: MountedServer)
        ensures
            r.spec_prefix() == prefix@,
    {
        MountedServer { prefix: owned(prefix) }
    }

    /// The prefix put before the names of the mirrored components.
    pub fn prefix(&self) -> (r: &str)
        ensures
            r@ == self.spec_prefix(),
    {
        self.prefix.as_str()
    }

    /// The messages of a remote prompt's result (its `messages` member), or
    /// the error a result without them is answered with.
    pub fn prompt_messages(result: &JsonValue) -> (r: Result<JsonValue, FastMCPError>)
        ensures
            match result.spec_get("messages"@) {
                Some(m) => r matches Ok(x) && x@ == m@,
                None => r matches Err(FastMCPError::InvalidRequest(e)) && e@
                    == "Missing messages in prompt result"@,
            },
    {
        match result.get("messages") {
            Some(m) => Ok(m.deep_copy()),
            None => Err(FastMCPError::InvalidRequest(owned("Missing messages in prompt result"))),
        }
    }

    /// The local name of the remote component `name`.
    pub fn local_name(&self, name: &str) -> (r: String)
        ensures
            r@ == local_name(self.spec_prefix(), name@),
    {
        if self.prefix.unicode_len() == 0 {
            owned(name)
        } else {
            let mut s = self.prefix.clone();
            s.append("_");
            s.append(name);
            s
        }
    }

    /// The local tool that mirrors a remote tool: the local name, the remote
    /// title and description, and the remote schemas under the remote name;
    /// enabled, without tags, metadata or key.
    pub fn create_proxy_tool(
        &self,
        name: String,
        title: Option<String>,
        description: Option<String>,
        input_schema: JsonValue,
        output_schema: Option<JsonValue>,
    ) -> (r: Tool)
        ensures
            r.name@ == local_name(self.spec_prefix(), name@),
            r.title == title,
            r.description == description,
            r.enabled,
            r.key is None,
            r.meta is None,
            r.tags@.is_empty(),
            r@.data == ToolKindView::Function(
                crate::tools::tool::ToolFunctionView {
                    name: name@,
                    description: None,
                    input_schema: input_schema@,
                    output_schema: opt_json(output_schema),
                    compiled_schema: None,
                },
            ),
    {
        let local = self.local_name(name.as_str());
        Component {
            name: local,
            title,
            description,
            tags: StringSet::new(),
            meta: None,
            enabled: true,
            key: None,
            data: ToolKind::Function(
                ToolFunction {
                    name,
                    description: None,
                    input_schema,
                    output_schema,
                    compiled_schema: None,
                },
            ),
        }
    }
}

} // verus!
