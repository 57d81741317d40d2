//! Tool descriptions: name, metadata and JSON Schema of the input.
//!
//! The handler that runs a tool is kept by the application next to the
//! registry, under the tool's name.

use vstd::prelude::*;
use crate::mcp::types::{
    find_member, json_view, json_views, lemma_member_views, member_views, set_member,
    set_member_exec, ContentBlock, JsonValue, JsonView, is_first_key,
};
use crate::util::component::{copy_members_opt, copy_opt_string, Component, ComponentView};
use crate::util::string_set::StringSet;
use crate::util::text::{opt_chars, owned};

verus! {

/// The value returned by a tool handler after execution.
pub struct ToolResult {
    /// Content blocks (text, images, etc.) returned to the caller.
    pub content: Vec<ContentBlock>,
    /// Optional structured JSON output for programmatic consumption.
    pub structured_content: Option<JsonValue>,
}

/// The model of an optional JSON value.
pub open spec fn opt_json(v: Option<JsonValue>) -> Option<JsonView> {
    match v {
        Some(x) => Some(json_view(x)),
        None => None,
    }
}

/// Model of a [`ToolFunction`].
pub ghost struct ToolFunctionView {
    pub name: Seq<char>,
    pub description: Option<Seq<char>>,
    pub input_schema: JsonView,
    pub output_schema: Option<JsonView>,
    pub compiled_schema: Option<JsonView>,
}

/// Description of a callable tool.
pub struct ToolFunction {
    /// Tool name (must be unique within the server).
    pub name: String,
    /// Human-readable description shown to clients.
    pub description: Option<String>,
    /// JSON Schema describing the expected input arguments.
    pub input_schema: JsonValue,
    /// Optional JSON Schema describing the output.
    pub output_schema: Option<JsonValue>,
    /// Schema prepared for validation (populated at registration).
    pub compiled_schema: Option<JsonValue>,
}

impl View for ToolFunction {
    type V = ToolFunctionView;

    open spec fn view(&self) -> ToolFunctionView {
        ToolFunctionView {
            name: self.name@,
            description: opt_chars(self.description),
            input_schema: json_view(self.input_schema),
            output_schema: opt_json(self.output_schema),
            compiled_schema: opt_json(self.compiled_schema),
        }
    }
}

/// Model of a [`ToolKind`].
pub ghost enum ToolKindView {
    Function(ToolFunctionView),
    Transformed(ToolFunctionView),
}

/// Discriminated kind of tool.
pub enum ToolKind {
    /// A standard function-based tool.
    Function(ToolFunction),
    /// A tool whose input/output has been transformed.
    Transformed { original: ToolFunction },
}

impl View for ToolKind {
    type V = ToolKindView;

    open spec fn view(&self) -> ToolKindView {
        match self {
            ToolKind::Function(f) => ToolKindView::Function(f@),
            ToolKind::Transformed { original } => ToolKindView::Transformed(original@),
        }
    }
}

/// A registered tool component.
pub type Tool = Component<ToolKind>;

/// Model of a tool.
pub type ToolView = ComponentView<ToolKindView>;

/// A copy of an optional JSON value with the same model.
pub fn copy_opt_json(v: &Option<JsonValue>) -> (r: Option<JsonValue>)
    ensures
        opt_json(r) == opt_json(*v),
{
    match v {
        Some(x) => Some(x.deep_copy()),
        None => None,
    }
}

impl ToolFunction {
    /// A copy with the same model.
    pub fn copy(&self) -> (r: ToolFunction)
        ensures
            r@ == self@,
    {
        ToolFunction {
            name: self.name.clone(),
            description: copy_opt_string(&self.description),
            input_schema: self.input_schema.deep_copy(),
            output_schema: copy_opt_json(&self.output_schema),
            compiled_schema: copy_opt_json(&self.compiled_schema),
        }
    }
}

impl ToolKind {
    /// A copy with the same model.
    pub fn copy(&self) -> (r: ToolKind)
        ensures
            r@ == self@,
    {
        match self {
            ToolKind::Function(f) => ToolKind::Function(f.copy()),
            ToolKind::Transformed { original } => ToolKind::Transformed { original: original.copy() },
        }
    }
}

/// A copy of a tool with the same model.
pub fn copy_tool(t: &Tool) -> (r: Tool)
    ensures
        r@ == t@,
{
    Component {
        name: t.name.clone(),
        title: copy_opt_string(&t.title),
        description: copy_opt_string(&t.description),
        tags: t.tags.copy(),
        meta: copy_members_opt(&t.meta),
        enabled: t.enabled,
        key: copy_opt_string(&t.key),
        data: t.data.copy(),
    }
}

impl Clone for Component<ToolKind> {
    /// A copy with the same model.
    fn clone(&self) -> (r: Tool)
        ensures
            r@ == self@,
    {
        copy_tool(self)
    }
}

/// The input schema of a new tool: an object without properties.
pub open spec fn empty_object_schema() -> JsonView {
    JsonView::Object(
        seq![
            ("type"@, JsonView::Str("object"@)),
            ("properties"@, JsonView::Object(Seq::empty())),
            ("required"@, JsonView::Array(Seq::empty())),
        ],
    )
}

/// The schema of one parameter.
pub open spec fn parameter_schema(type_: Seq<char>, description: Seq<char>) -> JsonView {
    JsonView::Object(
        seq![("type"@, JsonView::Str(type_)), ("description"@, JsonView::Str(description))],
    )
}

/// A schema with parameter `name` added to (or replaced in) its `properties`
/// object; other schemas are left as they are.
pub open spec fn schema_with_parameter(s: JsonView, name: Seq<char>, param: JsonView) -> JsonView {
    match s {
        JsonView::Object(ms) => if exists|p: int| is_first_key(ms, "properties"@, p) {
            let p = choose|p: int| is_first_key(ms, "properties"@, p);
            match ms[p].1 {
                JsonView::Object(props) => JsonView::Object(
                    ms.update(p, ("properties"@, JsonView::Object(set_member(props, name, param)))),
                ),
                _ => s,
            }
        } else {
            s
        },
        _ => s,
    }
}

/// The input schema of a tool after `add_parameter`.
pub open spec fn tool_with_parameter(
    t: ToolView,
    name: Seq<char>,
    type_: Seq<char>,
    description: Seq<char>,
) -> ToolView {
    match t.data {
        ToolKindView::Function(f) => ToolView {
            data: ToolKindView::Function(
                ToolFunctionView {
                    input_schema: schema_with_parameter(
                        f.input_schema,
                        name,
                        parameter_schema(type_, description),
                    ),
                    ..f
                },
            ),
            ..t
        },
        _ => t,
    }
}

/// The schema `{"type": type_, "description": description}`.
fn parameter_json(type_: &str, description: &str) -> (r: JsonValue)
    ensures
        json_view(r) == parameter_schema(type_@, description@),
{
    let mut members: Vec<(String, JsonValue)> = Vec::new();
    members.push((owned("type"), JsonValue::Str(owned(type_))));
    members.push((owned("description"), JsonValue::Str(owned(description))));
    let r = JsonValue::Object(members);
    proof {
        lemma_member_views(members@);
        assert(member_views(members@) =~= seq![
            ("type"@, JsonView::Str(type_@)),
            ("description"@, JsonView::Str(description@)),
        ]);
    }
    r
}

/// `schema` with parameter `name` added to its `properties` object.
fn schema_add_parameter(schema: JsonValue, name: &str, param: JsonValue) -> (r: JsonValue)
    ensures
        json_view(r) == schema_with_parameter(json_view(schema), name@, json_view(param)),
{
    match schema {
        JsonValue::Object(members) => {
            let ghost mv = member_views(members@);
            proof {
                lemma_member_views(members@);
            }
            match find_member(&members, "properties") {
                Some(p) => {
                    proof {
                        assert(forall|q: int| is_first_key(mv, "properties"@, q) ==> q == p as int);
                    }
                    let mut members = members;
                    let (k, v) = members.remove(p);
                    let ghost vv = json_view(v);
                    let is_object = match &v {
                        JsonValue::Object(_) => true,
                        _ => false,
                    };
                    let v2 = match v {
                        JsonValue::Object(props) => JsonValue::Object(
                            set_member_exec(props, name, param),
                        ),
                        other => other,
                    };
                    members.insert(p, (k, v2));
                    proof {
                        lemma_member_views(members@);
                        if is_object {
                            assert(member_views(members@) =~= mv.update(
                                p as int,
                                (mv[p as int].0, json_view(v2)),
                            ));
                        } else {
                            assert(member_views(members@) =~= mv);
                        }
                    }
                    JsonValue::Object(members)
                },
                None => {
                    proof {
                        assert(!exists|q: int| is_first_key(mv, "properties"@, q));
                    }
                    JsonValue::Object(members)
                },
            }
        },
        other => other,
    }
}

impl Component<ToolKind> {
    /// A function tool named `name` with an empty object input schema; the
    /// title defaults to the name.
    pub fn new(name: &str, description: &str) -> (r: Tool)
        ensures
            r@ == (ToolView {
                name: name@,
                title: Some(name@),
                description: Some(description@),
                tags: Set::empty(),
                meta: None,
                enabled: true,
                key: None,
                data: ToolKindView::Function(
                    ToolFunctionView {
                        name: name@,
                        description: Some(description@),
                        input_schema: empty_object_schema(),
                        output_schema: None,
                        compiled_schema: None,
                    },
                ),
            }),
    {
        let mut members: Vec<(String, JsonValue)> = Vec::new();
        members.push((owned("type"), JsonValue::Str(owned("object"))));
        members.push((owned("properties"), JsonValue::Object(Vec::new())));
        members.push((owned("required"), JsonValue::Array(Vec::new())));
        proof {
            lemma_member_views(members@);
            let e1: Seq<(String, JsonValue)> = Seq::empty();
            let e2: Seq<JsonValue> = Seq::empty();
            assert(member_views(e1) =~= Seq::<(Seq<char>, JsonView)>::empty());
            assert(json_views(e2) =~= Seq::<JsonView>::empty());
            assert(member_views(members@) =~= seq![
                ("type"@, JsonView::Str("object"@)),
                ("properties"@, JsonView::Object(Seq::empty())),
                ("required"@, JsonView::Array(Seq::empty())),
            ]);
        }
        Component {
            name: owned(name),
            title: Some(owned(name)),
            description: Some(owned(description)),
            enabled: true,
            key: None,
            tags: StringSet::new(),
            meta: None,
            data: ToolKind::Function(
                ToolFunction {
                    name: owned(name),
                    description: Some(owned(description)),
                    input_schema: JsonValue::Object(members),
                    output_schema: None,
                    compiled_schema: None,
                },
            ),
        }
    }

    /// Adds a parameter `{"type": type_, "description": description}` under
    /// `name` to the `properties` of a function tool's input schema.
    pub fn add_parameter(self, name: &str, type_: &str, description: &str) -> (r: Tool)
        ensures
            r@ == tool_with_parameter(self@, name@, type_@, description@),
    {
        let Component { name: n, title, description: d, tags, meta, enabled, key, data } = self;
        let data = match data {
            ToolKind::Function(f) => {
                let ToolFunction {
                    name: fname,
                    description: fdesc,
                    input_schema,
                    output_schema,
                    compiled_schema,
                } = f;
                let param = parameter_json(type_, description);
                ToolKind::Function(
                    ToolFunction {
                        name: fname,
                        description: fdesc,
                        input_schema: schema_add_parameter(input_schema, name, param),
                        output_schema,
                        compiled_schema,
                    },
                )
            },
            other => other,
        };
        Component { name: n, title, description: d, tags, meta, enabled, key, data }
    }
}

/// The value of the first member named `key`, if there is one.
pub open spec fn first_value(ms: Seq<(Seq<char>, JsonView)>, key: Seq<char>) -> Option<JsonView> {
    if exists|i: int| is_first_key(ms, key, i) {
        Some(ms[choose|i: int| is_first_key(ms, key, i)].1)
    } else {
        None
    }
}

/// The members of a schema's `properties` object, where it has one.
pub open spec fn schema_properties(s: JsonView) -> Option<Seq<(Seq<char>, JsonView)>> {
    match s {
        JsonView::Object(ms) => match first_value(ms, "properties"@) {
            Some(JsonView::Object(props)) => Some(props),
            _ => None,
        },
        _ => None,
    }
}

/// Only one position holds the first member named `key`.
proof fn lemma_first_key_unique(ms: Seq<(Seq<char>, JsonView)>, key: Seq<char>, i: int, j: int)
    requires
        is_first_key(ms, key, i),
        is_first_key(ms, key, j),
    ensures
        i == j,
{
    if i < j {
        assert(ms[i].0 == key);
    } else if j < i {
        assert(ms[j].0 == key);
    }
}

/// A member named `key` at `j` means there is a first one.
proof fn lemma_has_first(ms: Seq<(Seq<char>, JsonView)>, key: Seq<char>, j: int)
    requires
        0 <= j < ms.len(),
        ms[j].0 == key,
    ensures
        exists|i: int| is_first_key(ms, key, i),
    decreases j,
{
    if forall|q: int| 0 <= q < j ==> ms[q].0 != key {
        assert(is_first_key(ms, key, j));
    } else {
        let q = choose|q: int| 0 <= q < j && ms[q].0 == key;
        lemma_has_first(ms, key, q);
    }
}

/// The first value named `key` is the value at position `i` when `i` holds
/// the first member named `key`.
proof fn lemma_first_value_at(ms: Seq<(Seq<char>, JsonView)>, key: Seq<char>, i: int)
    requires
        is_first_key(ms, key, i),
    ensures
        first_value(ms, key) == Some(ms[i].1),
{
    let c = choose|c: int| is_first_key(ms, key, c);
    lemma_first_key_unique(ms, key, i, c);
}

/// Setting member `key` makes its value `val` and leaves the first value of
/// every other key as it was.
proof fn lemma_first_value_set_member(
    ms: Seq<(Seq<char>, JsonView)>,
    key: Seq<char>,
    val: JsonView,
    k: Seq<char>,
)
    ensures
        first_value(set_member(ms, key, val), k) == if k == key {
            Some(val)
        } else {
            first_value(ms, k)
        },
{
    let ms2 = set_member(ms, key, val);
    if exists|i: int| is_first_key(ms, key, i) {
        let p = choose|i: int| is_first_key(ms, key, i);
        assert(ms2 == ms.update(p, (key, val)));
        assert forall|i: int| #![auto] 0 <= i < ms.len() implies ms2[i].0 == ms[i].0 by {}
        assert forall|i: int| is_first_key(ms2, k, i) <==> is_first_key(ms, k, i) by {
            if 0 <= i < ms.len() {
                assert forall|j: int| 0 <= j < i implies ms2[j].0 == ms[j].0 by {}
            }
        }
        if k == key {
            assert(is_first_key(ms2, key, p));
            lemma_first_value_at(ms2, key, p);
        } else if exists|i: int| is_first_key(ms, k, i) {
            let q = choose|i: int| is_first_key(ms, k, i);
            assert(is_first_key(ms2, k, q));
            lemma_first_value_at(ms2, k, q);
            lemma_first_value_at(ms, k, q);
            assert(q != p);
        } else {
            assert(!exists|i: int| is_first_key(ms2, k, i));
        }
    } else {
        assert(ms2 == ms.push((key, val)));
        assert forall|j: int| 0 <= j < ms.len() implies ms[j].0 != key by {
            if ms[j].0 == key {
                lemma_has_first(ms, key, j);
            }
        }
        if k == key {
            assert(is_first_key(ms2, key, ms.len() as int));
            lemma_first_value_at(ms2, key, ms.len() as int);
        } else {
            assert forall|i: int| is_first_key(ms2, k, i) <==> is_first_key(ms, k, i) by {
                if 0 <= i < ms.len() {
                    assert forall|j: int| 0 <= j < i implies ms2[j].0 == ms[j].0 by {}
                }
            }
            if exists|i: int| is_first_key(ms, k, i) {
                let q = choose|i: int| is_first_key(ms, k, i);
                assert(is_first_key(ms2, k, q));
                lemma_first_value_at(ms2, k, q);
                lemma_first_value_at(ms, k, q);
            } else {
                assert(!exists|i: int| is_first_key(ms2, k, i));
            }
        }
    }
}

/// Law: `add_parameter` on a function tool whose input schema has a
/// `properties` object sets the parameter `name` to
/// `{"type": type_, "description": description}` and keeps every other
/// parameter as it was; the rest of the tool is unchanged.
pub proof fn law_add_parameter_keeps_others(
    t: ToolView,
    name: Seq<char>,
    type_: Seq<char>,
    description: Seq<char>,
    k: Seq<char>,
)
    requires
        t.data matches ToolKindView::Function(f) && schema_properties(f.input_schema) is Some,
    ensures
        ({
            let t2 = tool_with_parameter(t, name, type_, description);
            let props = schema_properties(t.data->Function_0.input_schema)->Some_0;
            &&& t2.name == t.name && t2.title == t.title && t2.description == t.description
            &&& t2.tags == t.tags && t2.enabled == t.enabled && t2.key == t.key
            &&& t2.data matches ToolKindView::Function(f2)
            &&& f2.name == t.data->Function_0.name
            &&& f2.output_schema == t.data->Function_0.output_schema
            &&& schema_properties(f2.input_schema) matches Some(props2)
            &&& first_value(props2, k) == if k == name {
                Some(parameter_schema(type_, description))
            } else {
                first_value(props, k)
            }
        }),
{
    let f = t.data->Function_0;
    let s = f.input_schema;
    let ms = s->Object_0;
    let param = parameter_schema(type_, description);
    let p = choose|p: int| is_first_key(ms, "properties"@, p);
    assert(is_first_key(ms, "properties"@, p));
    lemma_first_value_at(ms, "properties"@, p);
    let props = ms[p].1->Object_0;
    let ms2 = ms.update(p, ("properties"@, JsonView::Object(set_member(props, name, param))));
    assert forall|j: int| 0 <= j < p implies ms2[j].0 != "properties"@ by {}
    assert(is_first_key(ms2, "properties"@, p));
    lemma_first_value_at(ms2, "properties"@, p);
    lemma_first_value_set_member(props, name, param, k);
}

} // verus!
