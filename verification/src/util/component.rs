//! Generic component envelope shared by tools, resources, and prompts.

use vstd::prelude::*;
use crate::mcp::types::{member_views, JsonValue, JsonView};
use crate::util::string_set::StringSet;
use crate::util::text::opt_chars;

verus! {

/// The models of optional object members.
pub open spec fn opt_members(m: Option<Vec<(String, JsonValue)>>) -> Option<
    Seq<(Seq<char>, JsonView)>,
> {
    match m {
        Some(v) => Some(member_views(v@)),
        None => None,
    }
}

/// Model of a [`Component`].
pub ghost struct ComponentView<V> {
    pub name: Seq<char>,
    pub title: Option<Seq<char>>,
    pub description: Option<Seq<char>>,
    pub tags: Set<Seq<char>>,
    pub meta: Option<Seq<(Seq<char>, JsonView)>>,
    pub enabled: bool,
    pub key: Option<Seq<char>>,
    pub data: V,
}

/// Generic base type shared by tools, resources, and prompts: the common
/// envelope fields together with type-specific data `T`.
pub struct Component<T> {
    /// Unique identifier within its manager (tool name, resource URI, prompt name).
    pub name: String,
    /// Optional human-readable display title.
    pub title: Option<String>,
    /// Human-readable description exposed to clients.
    pub description: Option<String>,
    /// Arbitrary labels used for tag-based filtering.
    pub tags: StringSet,
    /// Arbitrary key-value metadata for application use.
    pub meta: Option<Vec<(String, JsonValue)>>,
    /// When `false` the component is registered but excluded from listings.
    pub enabled: bool,
    /// Optional stable key for external reference.
    pub key: Option<String>,
    /// Type-specific data.
    pub data: T,
}

impl<T: View> View for Component<T> {
    type V = ComponentView<T::V>;

    open spec fn view(&self) -> ComponentView<T::V> {
        ComponentView {
            name: self.name@,
            title: opt_chars(self.title),
            description: opt_chars(self.description),
            tags: self.tags@,
            meta: opt_members(self.meta),
            enabled: self.enabled,
            key: opt_chars(self.key),
            data: self.data@,
        }
    }
}

/// Copies of optional object members with the same models.
pub fn copy_members_opt(m: &Option<Vec<(String, JsonValue)>>) -> (r: Option<Vec<(String, JsonValue)>>)
    ensures
        opt_members(r) == opt_members(*m),
{
    match m {
        Some(v) => Some(copy_members(v)),
        None => None,
    }
}

/// Copies of object members with the same models.
pub fn copy_members(v: &Vec<(String, JsonValue)>) -> (r: Vec<(String, JsonValue)>)
    ensures
        member_views(r@) == member_views(v@),
{
    let mut out: Vec<(String, JsonValue)> = Vec::new();
    let mut i: usize = 0;
    assert(v@.take(0) =~= Seq::<(String, JsonValue)>::empty());
    while i < v.len()
        invariant
            i <= v@.len(),
            out@.len() == i,
            member_views(out@) == member_views(v@.take(i as int)),
        decreases v@.len() - i,
    {
        let k = v[i].0.clone();
        let x = v[i].1.deep_copy();
        let ghost before = out@;
        out.push((k, x));
        proof {
            assert(out@.subrange(0, out@.len() - 1) =~= before);
            let t = v@.take(i + 1);
            assert(t.subrange(0, t.len() - 1) =~= v@.take(i as int));
        }
        i = i + 1;
    }
    assert(v@.take(v@.len() as int) =~= v@);
    out
}

/// A copy of an optional string with the same characters.
pub fn copy_opt_string(s: &Option<String>) -> (r: Option<String>)
    ensures
        opt_chars(r) == opt_chars(*s),
{
    match s {
        Some(x) => Some(x.clone()),
        None => None,
    }
}

/// Whether a component lives on this server or was mirrored from a remote one.
#[derive(Debug, Clone, Copy, PartialEq, Eq, Structural)]
pub enum MirroredFlag {
    /// Component registered locally.
    Local,
    /// Component mirrored from a remote server.
    Mirrored,
}

/// A [`Component`] annotated with its mirror origin.
pub struct MirroredComponent<T> {
    pub component: Component<T>,
    pub mirrored: MirroredFlag,
}

} // verus!
