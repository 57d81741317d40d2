//! JSON-RPC and MCP wire types, with a JSON value model the library can
//! reason about.

use vstd::prelude::*;
use crate::util::string_map::StringMap;

verus! {

/// A JSON value. Numbers are kept as their JSON text; object members keep
/// their order, and a well-formed object names each key once.
#[derive(Debug)]
pub enum JsonValue {
    Null,
    Bool(bool),
    Number(String),
    Str(String),
    Array(Vec<JsonValue>),
    Object(Vec<(String, JsonValue)>),
}

/// The value stored under `key` among object members (the first member with
/// that key).
pub open spec fn member_lookup(entries: Seq<(String, JsonValue)>, key: Seq<char>) -> Option<
    JsonValue,
>
    decreases entries.len(),
{
    if entries.len() == 0 {
        None
    } else if entries[0].0@ == key {
        Some(entries[0].1)
    } else {
        member_lookup(entries.drop_first(), key)
    }
}

proof fn lemma_member_lookup_skip(entries: Seq<(String, JsonValue)>, key: Seq<char>, i: int)
    requires
        0 <= i < entries.len(),
        entries[i].0@ != key,
    ensures
        member_lookup(entries.skip(i), key) == member_lookup(entries.skip(i + 1), key),
{
    assert(entries.skip(i).drop_first() =~= entries.skip(i + 1));
}

/// The mathematical model of a JSON value.
pub ghost enum JsonView {
    Null,
    Bool(bool),
    Number(Seq<char>),
    Str(Seq<char>),
    Array(Seq<JsonView>),
    Object(Seq<(Seq<char>, JsonView)>),
}

/// The model of a JSON value.
pub open spec fn json_view(v: JsonValue) -> JsonView
    decreases v, 1nat,
{
    match v {
        JsonValue::Null => JsonView::Null,
        JsonValue::Bool(b) => JsonView::Bool(b),
        JsonValue::Number(n) => JsonView::Number(n@),
        JsonValue::Str(s) => JsonView::Str(s@),
        JsonValue::Array(items) => JsonView::Array(json_views(items@)),
        JsonValue::Object(entries) => JsonView::Object(member_views(entries@)),
    }
}

/// The models of a sequence of JSON values.
pub open spec fn json_views(s: Seq<JsonValue>) -> Seq<JsonView>
    decreases s, 0nat,
{
    if s.len() == 0 {
        Seq::empty()
    } else {
        json_views(s.subrange(0, s.len() - 1)).push(json_view(s[s.len() - 1]))
    }
}

/// The models of a sequence of object members.
pub open spec fn member_views(s: Seq<(String, JsonValue)>) -> Seq<(Seq<char>, JsonView)>
    decreases s, 0nat,
{
    if s.len() == 0 {
        Seq::empty()
    } else {
        member_views(s.subrange(0, s.len() - 1)).push((s[s.len() - 1].0@, json_view(s[s.len() - 1].1)))
    }
}

/// The models of object members, one by one.
pub proof fn lemma_member_views(s: Seq<(String, JsonValue)>)
    ensures
        member_views(s).len() == s.len(),
        forall|i: int| 0 <= i < s.len() ==> #[trigger] member_views(s)[i] == (s[i].0@, json_view(s[i].1)),
    decreases s.len(),
{
    if s.len() > 0 {
        lemma_member_views(s.subrange(0, s.len() - 1));
    }
}

/// The models of JSON values, one by one.
pub proof fn lemma_json_views(s: Seq<JsonValue>)
    ensures
        json_views(s).len() == s.len(),
        forall|i: int| 0 <= i < s.len() ==> #[trigger] json_views(s)[i] == json_view(s[i]),
    decreases s.len(),
{
    if s.len() > 0 {
        lemma_json_views(s.subrange(0, s.len() - 1));
    }
}

/// Position `i` holds the first member named `key`.
pub open spec fn is_first_key(ms: Seq<(Seq<char>, JsonView)>, key: Seq<char>, i: int) -> bool {
    0 <= i < ms.len() && ms[i].0 == key && forall|j: int| 0 <= j < i ==> ms[j].0 != key
}

/// The members with `key` set to `val`: the first member with that key is
/// replaced, or the member is appended when there is none.
pub open spec fn set_member(ms: Seq<(Seq<char>, JsonView)>, key: Seq<char>, val: JsonView) -> Seq<
    (Seq<char>, JsonView),
> {
    if exists|i: int| is_first_key(ms, key, i) {
        ms.update(choose|i: int| is_first_key(ms, key, i), (key, val))
    } else {
        ms.push((key, val))
    }
}

/// Position of the first member named `key`.
pub fn find_member(members: &Vec<(String, JsonValue)>, key: &str) -> (r: Option<usize>)
    ensures
        match r {
            Some(i) => is_first_key(member_views(members@), key@, i as int),
            None => forall|j: int| 0 <= j < members@.len() ==> members@[j].0@ != key@,
        },
{
    proof {
        lemma_member_views(members@);
    }
    let mut i: usize = 0;
    while i < members.len()
        invariant
            i <= members@.len(),
            member_views(members@).len() == members@.len(),
            forall|k: int| 0 <= k < members@.len() ==> #[trigger] member_views(members@)[k] == (
            members@[k].0@, json_view(members@[k].1)),
            forall|j: int| 0 <= j < i ==> members@[j].0@ != key@,
        decreases members@.len() - i,
    {
        if crate::util::text::str_eq(members[i].0.as_str(), key) {
            proof {
                assert forall|j: int| 0 <= j < i implies member_views(members@)[j].0 != key@ by {
                    assert(member_views(members@)[j] == (members@[j].0@, json_view(members@[j].1)));
                }
            }
            return Some(i);
        }
        i = i + 1;
    }
    None
}

/// Sets member `key` to `val`, replacing the first member with that key or
/// appending one.
pub fn set_member_exec(members: Vec<(String, JsonValue)>, key: &str, val: JsonValue) -> (r: Vec<
    (String, JsonValue),
>)
    ensures
        member_views(r@) == set_member(member_views(members@), key@, json_view(val)),
{
    let ghost mv = member_views(members@);
    let ghost vv = json_view(val);
    proof {
        lemma_member_views(members@);
    }
    let mut members = members;
    match find_member(&members, key) {
        Some(p) => {
            let ghost old_m = members@;
            members.set(p, (crate::util::text::owned(key), val));
            proof {
                lemma_member_views(members@);
                assert(forall|i: int| is_first_key(mv, key@, i) ==> i == p as int);
                assert(member_views(members@) =~= mv.update(p as int, (key@, vv)));
            }
            members
        },
        None => {
            let ghost old_m = members@;
            members.push((crate::util::text::owned(key), val));
            proof {
                lemma_member_views(members@);
                assert(!exists|i: int| is_first_key(mv, key@, i));
                assert(member_views(members@) =~= mv.push((key@, vv)));
            }
            members
        },
    }
}

impl View for JsonValue {
    type V = JsonView;

    open spec fn view(&self) -> JsonView {
        json_view(*self)
    }
}

impl Clone for JsonValue {
    /// A copy with the same model.
    fn clone(&self) -> (r: JsonValue)
        ensures
            r@ == self@,
    {
        self.deep_copy()
    }
}

impl JsonValue {
    /// The member of an object under `key`; `None` for non-objects.
    pub open spec fn spec_get(self, key: Seq<char>) -> Option<JsonValue> {
        match self {
            JsonValue::Object(entries) => member_lookup(entries@, key),
            _ => None,
        }
    }

    /// The characters of a JSON string; `None` for other values.
    pub open spec fn spec_str(self) -> Option<Seq<char>> {
        match self {
            JsonValue::Str(s) => Some(s@),
            _ => None,
        }
    }

    /// The member of an object under `key` (`serde_json::Value::get`).
    pub fn get(&self, key: &str) -> (r: Option<&JsonValue>)
        ensures
            match r {
                Some(v) => self.spec_get(key@) == Some(*v),
                None => self.spec_get(key@).is_none(),
            },
    {
        match self {
            JsonValue::Object(entries) => {
                let mut i: usize = 0;
                assert(entries@.skip(0) =~= entries@);
                assert(self.spec_get(key@) == member_lookup(entries@, key@));
                while i < entries.len()
                    invariant
                        i <= entries@.len(),
                        member_lookup(entries@.skip(i as int), key@) == member_lookup(
                            entries@,
                            key@,
                        ),
                        self.spec_get(key@) == member_lookup(entries@, key@),
                    decreases entries@.len() - i,
                {
                    if crate::util::text::str_eq(entries[i].0.as_str(), key) {
                        assert(entries@.skip(i as int)[0] == entries@[i as int]);
                        assert(entries@.skip(i as int).len() > 0);
                        assert(member_lookup(entries@.skip(i as int), key@) == Some(
                            entries@[i as int].1,
                        ));
                        return Some(&entries[i].1);
                    }
                    proof {
                        lemma_member_lookup_skip(entries@, key@, i as int);
                    }
                    i = i + 1;
                }
                assert(entries@.skip(i as int).len() == 0);
                None
            },
            _ => None,
        }
    }

    /// The characters of a JSON string (`serde_json::Value::as_str`).
    pub fn as_str(&self) -> (r: Option<&String>)
        ensures
            match r {
                Some(s) => self.spec_str() == Some(s@),
                None => self.spec_str().is_none(),
            },
    {
        match self {
            JsonValue::Str(s) => Some(s),
            _ => None,
        }
    }

    /// The string member under `key`, if the value is an object that has one.
    pub fn get_str(&self, key: &str) -> (r: Option<String>)
        ensures
            match r {
                Some(s) => self.spec_get(key@).is_some() && self.spec_get(key@).unwrap().spec_str()
                    == Some(s@),
                None => self.spec_get(key@).is_none() || self.spec_get(key@).unwrap().spec_str().is_none(),
            },
    {
        match self.get(key) {
            Some(v) => match v.as_str() {
                Some(s) => Some(s.clone()),
                None => None,
            },
            None => None,
        }
    }

    /// A copy with the same model.
    pub fn deep_copy(&self) -> (r: JsonValue)
        ensures
            r@ == self@,
        decreases self, 1nat,
    {
        match self {
            JsonValue::Null => JsonValue::Null,
            JsonValue::Bool(b) => JsonValue::Bool(*b),
            JsonValue::Number(n) => JsonValue::Number(n.clone()),
            JsonValue::Str(s) => JsonValue::Str(s.clone()),
            JsonValue::Array(items) => JsonValue::Array(copy_values(items)),
            JsonValue::Object(entries) => JsonValue::Object(copy_members(entries)),
        }
    }
}

/// Copies of a list of JSON values, with the same models.
fn copy_values(items: &Vec<JsonValue>) -> (out: Vec<JsonValue>)
    ensures
        json_views(out@) == json_views(items@),
    decreases items, 0nat,
{
    let mut out: Vec<JsonValue> = Vec::new();
    let mut i: usize = 0;
    assert(items@.take(0) =~= Seq::<JsonValue>::empty());
    while i < items.len()
        invariant
            i <= items@.len(),
            out@.len() == i,
            json_views(out@) == json_views(items@.take(i as int)),
        decreases items@.len() - i,
    {
        proof {
            vstd::std_specs::vec::axiom_vec_index_decreases(*items, i as int);
        }
        let c = items[i].deep_copy();
        let ghost before = out@;
        out.push(c);
        proof {
            assert(out@.subrange(0, out@.len() - 1) =~= before);
            let t = items@.take(i + 1);
            assert(t.subrange(0, t.len() - 1) =~= items@.take(i as int));
        }
        i = i + 1;
    }
    assert(items@.take(items@.len() as int) =~= items@);
    out
}

/// Copies of a list of object members, with the same models.
fn copy_members(entries: &Vec<(String, JsonValue)>) -> (out: Vec<(String, JsonValue)>)
    ensures
        member_views(out@) == member_views(entries@),
    decreases entries, 0nat,
{
    let mut out: Vec<(String, JsonValue)> = Vec::new();
    let mut i: usize = 0;
    assert(entries@.take(0) =~= Seq::<(String, JsonValue)>::empty());
    while i < entries.len()
        invariant
            i <= entries@.len(),
            out@.len() == i,
            member_views(out@) == member_views(entries@.take(i as int)),
        decreases entries@.len() - i,
    {
        proof {
            vstd::std_specs::vec::axiom_vec_index_decreases(*entries, i as int);
        }
        let k = entries[i].0.clone();
        let v = entries[i].1.deep_copy();
        let ghost before = out@;
        out.push((k, v));
        proof {
            assert(out@.subrange(0, out@.len() - 1) =~= before);
            let t = entries@.take(i + 1);
            assert(t.subrange(0, t.len() - 1) =~= entries@.take(i as int));
        }
        i = i + 1;
    }
    assert(entries@.take(entries@.len() as int) =~= entries@);
    out
}

/// A JSON-RPC request identifier.
pub enum RequestId {
    Int(i64),
    Str(String),
}

impl RequestId {
    /// A copy equal to this identifier.
    pub fn copy(&self) -> (r: RequestId)
        ensures
            r == *self,
    {
        match self {
            RequestId::Int(n) => RequestId::Int(*n),
            RequestId::Str(s) => RequestId::Str(s.clone()),
        }
    }
}

/// An incoming JSON-RPC request, with the transport headers it arrived with.
pub struct JsonRpcRequest {
    pub jsonrpc: String,
    pub id: RequestId,
    pub method: String,
    pub params: Option<JsonValue>,
    /// Transport headers (for example HTTP headers), when the transport has any.
    pub transport_metadata: Option<StringMap>,
}

/// A successful JSON-RPC response.
pub struct JsonRpcResponse {
    pub jsonrpc: String,
    pub id: RequestId,
    pub result: JsonValue,
}

impl JsonRpcResponse {
    /// A `"2.0"` response carrying `result` for request `id`.
    pub fn new(id: RequestId, result: JsonValue) -> (r: JsonRpcResponse)
        ensures
            r.jsonrpc@ == "2.0"@,
            r.id == id,
            r.result == result,
    {
        JsonRpcResponse { jsonrpc: crate::util::text::owned("2.0"), id, result }
    }
}

/// A JSON-RPC notification (no reply expected).
pub struct JsonRpcNotification {
    pub jsonrpc: String,
    pub method: String,
    pub params: Option<JsonValue>,
}

impl JsonRpcNotification {
    /// A `"2.0"` notification for `method`.
    pub fn new(method: String, params: Option<JsonValue>) -> (r: JsonRpcNotification)
        ensures
            r.jsonrpc@ == "2.0"@,
            r.method == method,
            r.params == params,
    {
        JsonRpcNotification { jsonrpc: crate::util::text::owned("2.0"), method, params }
    }
}

/// The error member of a JSON-RPC error reply.
pub struct ErrorObject {
    pub code: i64,
    pub message: String,
    pub data: Option<JsonValue>,
}

/// A JSON-RPC error reply.
pub struct JsonRpcError {
    pub jsonrpc: String,
    pub id: RequestId,
    pub error: ErrorObject,
}

impl JsonRpcError {
    /// A `"2.0"` error reply for request `id`.
    pub fn new(id: RequestId, code: i64, message: &str, data: Option<JsonValue>) -> (r:
        JsonRpcError)
        ensures
            r.jsonrpc@ == "2.0"@,
            r.id == id,
            r.error.code == code,
            r.error.message@ == message@,
            r.error.data == data,
    {
        JsonRpcError {
            jsonrpc: crate::util::text::owned("2.0"),
            id,
            error: ErrorObject { code, message: crate::util::text::owned(message), data },
        }
    }
}

/// Any JSON-RPC message.
pub enum JsonRpcMessage {
    Request(JsonRpcRequest),
    Response(JsonRpcResponse),
    Notification(JsonRpcNotification),
    Error(JsonRpcError),
}

/// Inline image content.
pub struct ImageContent {
    pub type_: String,
    /// Base64 text of the image bytes.
    pub data: String,
    pub mime_type: String,
}

/// The contents of a resource.
pub struct ResourceContents {
    pub uri: String,
    pub mime_type: Option<String>,
    pub text: Option<String>,
    /// Base64 text of binary contents.
    pub blob: Option<String>,
}

/// A resource embedded in a content list.
pub struct EmbeddedResource {
    pub type_: String,
    pub resource: ResourceContents,
}

/// Plain text content.
pub struct TextContent {
    pub type_: String,
    pub text: String,
}

/// One block of content returned to a client.
pub enum ContentBlock {
    Text(TextContent),
    Image(ImageContent),
    EmbeddedResource(EmbeddedResource),
}

} // verus!
