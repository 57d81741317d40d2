//! Namespacing of the components of a mounted provider.
//!
//! **Naming rules**:
//! - Tools: `{namespace}_{original_name}` (or the entry from `tool_renames`)
//! - Prompts: `{namespace}_{original_name}`
//! - Resources / templates: namespace injected as the first path segment
//!   (`scheme://authority/{namespace}/path`)

use vstd::prelude::*;
use crate::util::string_map::StringMap;
use crate::util::text::{after_prefix, decimal, has_prefix, opt_chars, owned, str_eq, strip_prefix, u64_to_decimal};
use crate::util::web::{parse_url, url_parse_result, UrlParts};
use crate::tools::tool::{Tool, ToolFunction, ToolKind};
use crate::util::component::Component;

verus! {

/// `n` occurs in `h` at position `i`.
pub open spec fn occurs_at(h: Seq<char>, n: Seq<char>, i: int) -> bool {
    0 <= i && i + n.len() <= h.len() && h.subrange(i, i + n.len()) == n
}

/// Position `i` is the first occurrence of `n` in `h`.
pub open spec fn is_first_occurrence(h: Seq<char>, n: Seq<char>, i: int) -> bool {
    occurs_at(h, n, i) && forall|j: int| 0 <= j < i ==> !occurs_at(h, n, j)
}

/// Position of the first occurrence of `needle` in `hay` (`str::find`, in characters).
pub fn find(hay: &str, needle: &str) -> (r: Option<usize>)
    ensures
        match r {
            Some(i) => is_first_occurrence(hay@, needle@, i as int),
            None => forall|j: int| !occurs_at(hay@, needle@, j),
        },
{
    let hl = hay.unicode_len();
    let nl = needle.unicode_len();
    if nl > hl {
        return None;
    }
    if nl == 0 {
        assert(hay@.subrange(0, 0) =~= needle@);
        return Some(0);
    }
    let mut i: usize = 0;
    while i <= hl - nl
        invariant
            hl == hay@.len(),
            nl == needle@.len(),
            1 <= nl <= hl,
            i <= hl - nl + 1,
            forall|j: int| 0 <= j < i ==> !occurs_at(hay@, needle@, j),
        decreases hl - nl + 1 - i,
    {
        let part = hay.substring_char(i, i + nl);
        if str_eq(part, needle) {
            return Some(i);
        }
        i = i + 1;
    }
    None
}

/// A name with the namespace prefix.
pub open spec fn prefixed(ns: Option<Seq<char>>, name: Seq<char>) -> Seq<char> {
    match ns {
        Some(n) => n + "_"@ + name,
        None => name,
    }
}

/// The name without the namespace prefix (names without it are kept).
pub open spec fn unprefixed(ns: Option<Seq<char>>, name: Seq<char>) -> Seq<char> {
    match ns {
        Some(n) => if has_prefix(name, n + "_"@) {
            after_prefix(name, n + "_"@)
        } else {
            name
        },
        None => name,
    }
}

/// The path with the namespace as first segment.
pub open spec fn path_with_namespace(ns: Seq<char>, path: Seq<char>) -> Seq<char> {
    if path.len() > 0 && path[0] == '/' {
        "/"@ + ns + "/"@ + path.subrange(1, path.len() as int)
    } else {
        ns + "/"@ + path
    }
}

/// The authority of a parsed URL as it is written: `user[:password]@` where
/// there is a user name or a password, then the host, then `:port` where the
/// port is not the scheme's default.
pub open spec fn authority(
    user: Seq<char>,
    password: Option<Seq<char>>,
    host: Option<Seq<char>>,
    port: Option<u16>,
) -> Seq<char> {
    let userinfo = if user.len() > 0 || password is Some {
        user + (match password {
            Some(p) => ":"@ + p,
            None => Seq::empty(),
        }) + "@"@
    } else {
        Seq::empty()
    };
    userinfo + (match host {
        Some(h) => h,
        None => Seq::empty(),
    }) + (match port {
        Some(p) => ":"@ + decimal(p as nat),
        None => Seq::empty(),
    })
}

/// A URI with the namespace injected.
pub open spec fn prefixed_uri(ns: Option<Seq<char>>, uri: Seq<char>) -> Seq<char> {
    match ns {
        None => uri,
        Some(n) => match url_parse_result(uri) {
            Ok(parts) => parts.0 + "://"@ + authority(parts.1, parts.2, parts.3, parts.4)
                + path_with_namespace(n, parts.5),
            Err(_) => n + "/"@ + uri,
        },
    }
}

/// A URI with the first `/{namespace}/` segment collapsed to `/`.
pub open spec fn stripped_uri(ns: Option<Seq<char>>, uri: Seq<char>) -> Seq<char> {
    match ns {
        None => uri,
        Some(n) => {
            let seg = "/"@ + n + "/"@;
            if exists|i: int| is_first_occurrence(uri, seg, i) {
                let i = choose|i: int| is_first_occurrence(uri, seg, i);
                uri.subrange(0, i) + "/"@ + uri.subrange(i + seg.len(), uri.len() as int)
            } else {
                uri
            }
        },
    }
}

/// Stripping at the first occurrence of the segment.
proof fn lemma_stripped_at(uri: Seq<char>, n: Seq<char>, pos: int)
    requires
        is_first_occurrence(uri, "/"@ + n + "/"@, pos),
    ensures
        stripped_uri(Some(n), uri) == uri.subrange(0, pos) + "/"@ + uri.subrange(
            pos + ("/"@ + n + "/"@).len(),
            uri.len() as int,
        ),
{
    let seg = "/"@ + n + "/"@;
    assert forall|j: int| is_first_occurrence(uri, seg, j) implies j == pos by {
        if j < pos {
            assert(!occurs_at(uri, seg, j));
        } else if j > pos {
            assert(!occurs_at(uri, seg, pos));
        }
    }
    let c = choose|j: int| is_first_occurrence(uri, seg, j);
    assert(c == pos);
}

/// The authority of parsed URL parts as it is written.
fn authority_text(parts: &UrlParts) -> (r: String)
    ensures
        r@ == authority(parts.username@, opt_chars(parts.password), opt_chars(parts.host), parts.port),
{
    let mut s = String::new();
    if parts.username.unicode_len() > 0 || parts.password.is_some() {
        s.append(parts.username.as_str());
        match &parts.password {
            Some(p) => {
                s.append(":");
                s.append(p.as_str());
            },
            None => {},
        }
        s.append("@");
    }
    match &parts.host {
        Some(h) => s.append(h.as_str()),
        None => {},
    }
    match parts.port {
        Some(p) => {
            s.append(":");
            let d = u64_to_decimal(p as u64);
            s.append(d.as_str());
        },
        None => {},
    }
    proof {
        let user = parts.username@;
        let pw = opt_chars(parts.password);
        let userinfo = if user.len() > 0 || pw is Some {
            user + (match pw {
                Some(p) => ":"@ + p,
                None => Seq::empty(),
            }) + "@"@
        } else {
            Seq::<char>::empty()
        };
        let hs = match opt_chars(parts.host) {
            Some(h) => h,
            None => Seq::<char>::empty(),
        };
        let ps = match parts.port {
            Some(p) => ":"@ + decimal(p as nat),
            None => Seq::<char>::empty(),
        };
        assert(s@ =~= userinfo + hs + ps);
    }
    s
}

/// The namespace and renames applied to a mounted provider's components.
pub struct TransformingProvider {
    pub namespace: Option<String>,
    /// Map from original tool name to overridden name (applied before prefixing).
    pub tool_renames: StringMap,
}

impl TransformingProvider {
    /// A transform with the given namespace and tool renames.
    pub fn new(namespace: Option<String>, tool_renames: StringMap) -> (r: TransformingProvider)
        ensures
            r.namespace == namespace,
            r.tool_renames == tool_renames,
    {
        TransformingProvider { namespace, tool_renames }
    }

    /// `{namespace}_{name}`, or `name` without namespace.
    pub fn prefix_name(&self, name: &str) -> (r: String)
        ensures
            r@ == prefixed(opt_chars(self.namespace), name@),
    {
        match &self.namespace {
            Some(ns) => {
                let mut s = ns.clone();
                s.append("_");
                s.append(name);
                s
            },
            None => owned(name),
        }
    }

    /// The announced name of a tool: renamed if a rename exists, then prefixed.
    pub fn prefix_tool_name(&self, original: &str) -> (r: String)
        ensures
            r@ == prefixed(
                opt_chars(self.namespace),
                if self.tool_renames@.contains_key(original@) {
                    self.tool_renames@[original@]
                } else {
                    original@
                },
            ),
    {
        match self.tool_renames.get(original) {
            Some(renamed) => self.prefix_name(renamed.as_str()),
            None => self.prefix_name(original),
        }
    }

    /// The tool as this provider announces it: its name (and the name of its
    /// function) replaced by the announced name; everything else kept.
    pub fn transform_tool(&self, tool: Tool) -> (r: Tool)
        ensures
            r.name@ == self.announced_tool_name(tool.name@),
            r.title == tool.title,
            r.description == tool.description,
            r.tags == tool.tags,
            r.meta == tool.meta,
            r.enabled == tool.enabled,
            r.key == tool.key,
            match tool.data {
                ToolKind::Function(f) => r.data matches ToolKind::Function(g) && g.name@
                    == self.announced_tool_name(tool.name@) && g.description == f.description
                    && g.input_schema == f.input_schema && g.output_schema == f.output_schema
                    && g.compiled_schema == f.compiled_schema,
                ToolKind::Transformed { original } => r.data == ToolKind::Transformed { original },
            },
    {
        let new_name = self.prefix_tool_name(tool.name.as_str());
        let Component { name: _, title, description, tags, meta, enabled, key, data } = tool;
        let data = match data {
            ToolKind::Function(f) => ToolKind::Function(ToolFunction { name: new_name.clone(), ..f }),
            other => other,
        };
        Component { name: new_name, title, description, tags, meta, enabled, key, data }
    }

    /// The name under which a tool named `name` is announced.
    pub open spec fn announced_tool_name(self, name: Seq<char>) -> Seq<char> {
        prefixed(
            opt_chars(self.namespace),
            if self.tool_renames@.contains_key(name) {
                self.tool_renames@[name]
            } else {
                name
            },
        )
    }

    /// The name without the namespace prefix.
    pub fn strip_prefix_name(&self, name: &str) -> (r: String)
        ensures
            r@ == unprefixed(opt_chars(self.namespace), name@),
    {
        match &self.namespace {
            Some(ns) => {
                let mut pfx = ns.clone();
                pfx.append("_");
                match strip_prefix(name, pfx.as_str()) {
                    Some(rest) => rest,
                    None => owned(name),
                }
            },
            None => owned(name),
        }
    }

    /// `r` is an original name behind the announced `name`: the name without
    /// prefix is undone through a rename that produced it, if one did.
    pub open spec fn is_original_tool_name(self, name: Seq<char>, r: Seq<char>) -> bool {
        let u = unprefixed(opt_chars(self.namespace), name);
        if exists|k: Seq<char>| self.tool_renames@.contains_key(k) && self.tool_renames@[k] == u {
            self.tool_renames@.contains_key(r) && self.tool_renames@[r] == u
        } else {
            r == u
        }
    }

    /// The original tool name behind an announced name: the prefix is removed,
    /// then a rename that produced it is undone (if several renames give that
    /// name, one of them is used).
    pub fn original_tool_name(&self, name: &str) -> (r: String)
        ensures
            self.is_original_tool_name(name@, r@),
    {
        let u = self.strip_prefix_name(name);
        let n = self.tool_renames.len();
        let mut i: usize = 0;
        while i < n
            invariant
                n == self.tool_renames.seq().len(),
                u@ == unprefixed(opt_chars(self.namespace), name@),
                i <= n,
                forall|j: int| 0 <= j < i ==> self.tool_renames.seq()[j].1 != u@,
            decreases n - i,
        {
            if str_eq(self.tool_renames.value_at(i).as_str(), u.as_str()) {
                let k = self.tool_renames.key_at(i).clone();
                assert(self.tool_renames@.contains_key(k@) && self.tool_renames@[k@] == u@);
                return k;
            }
            i = i + 1;
        }
        proof {
            if exists|k: Seq<char>|
                self.tool_renames@.contains_key(k) && self.tool_renames@[k] == u@ {
                let k = choose|k: Seq<char>|
                    self.tool_renames@.contains_key(k) && self.tool_renames@[k] == u@;
                let j = choose|j: int| 0 <= j < self.tool_renames.seq().len()
                    && self.tool_renames.seq()[j].0 == k;
                assert(self.tool_renames@[self.tool_renames.seq()[j].0] == self.tool_renames.seq()[j].1);
                assert(false);
            }
        }
        u
    }

    /// The original prompt name behind an announced name.
    pub fn original_prompt_name(&self, name: &str) -> (r: String)
        ensures
            r@ == unprefixed(opt_chars(self.namespace), name@),
    {
        self.strip_prefix_name(name)
    }

    /// Inject the namespace as the first path segment of the URI.
    ///
    /// `scheme://authority/path` becomes `scheme://authority/{namespace}/path`,
    /// the authority (user information, host and port) kept as it is; a URI
    /// that does not parse becomes `{namespace}/{uri}`.
    pub fn prefix_uri(&self, uri: &str) -> (r: String)
        ensures
            r@ == prefixed_uri(opt_chars(self.namespace), uri@),
    {
        match &self.namespace {
            None => owned(uri),
            Some(ns) => match parse_url(uri) {
                Ok(parts) => {
                    let mut s = owned(parts.scheme.as_str());
                    s.append("://");
                    let a = authority_text(&parts);
                    s.append(a.as_str());
                    let plen = parts.path.unicode_len();
                    if plen > 0 && parts.path.as_str().get_char(0) == '/' {
                        s.append("/");
                        s.append(ns.as_str());
                        s.append("/");
                        s.append(parts.path.as_str().substring_char(1, plen));
                    } else {
                        s.append(ns.as_str());
                        s.append("/");
                        s.append(parts.path.as_str());
                    }
                    s
                },
                Err(_) => {
                    let mut s = ns.clone();
                    s.append("/");
                    s.append(uri);
                    s
                },
            },
        }
    }

    /// Reverse the URI prefix transformation: the first `/{namespace}/` becomes `/`.
    pub fn strip_prefix_uri(&self, uri: &str) -> (r: String)
        ensures
            r@ == stripped_uri(opt_chars(self.namespace), uri@),
    {
        match &self.namespace {
            None => owned(uri),
            Some(ns) => {
                let mut seg = owned("/");
                seg.append(ns.as_str());
                seg.append("/");
                assert(seg@ =~= "/"@ + ns@ + "/"@);
                match find(uri, seg.as_str()) {
                    Some(pos) => {
                        let len = uri.unicode_len();
                        let sl = seg.unicode_len();
                        let mut out = owned(uri.substring_char(0, pos));
                        out.append("/");
                        out.append(uri.substring_char(pos + sl, len));
                        proof {
                            lemma_stripped_at(uri@, ns@, pos as int);
                            assert(out@ =~= uri@.subrange(0, pos as int) + "/"@ + uri@.subrange(
                                pos + seg@.len(),
                                uri@.len() as int,
                            ));
                        }
                        out
                    },
                    None => {
                        let o = owned(uri);
                        assert(o@ == stripped_uri(opt_chars(self.namespace), uri@));
                        o
                    },
                }
            },
        }
    }
}

/// Law: removing the namespace prefix gives back the name it was put on.
pub proof fn law_unprefix_undoes_prefix(ns: Option<Seq<char>>, name: Seq<char>)
    ensures
        unprefixed(ns, prefixed(ns, name)) == name,
{
    match ns {
        Some(n) => {
            let p = n + "_"@;
            assert((p + name).subrange(0, p.len() as int) =~= p);
            assert((n + "_"@ + name) =~= p + name);
            assert((p + name).subrange(p.len() as int, (p + name).len() as int) =~= name);
        },
        None => {},
    }
}

/// No character of `s` is `/`.
pub open spec fn no_slash(s: Seq<char>) -> bool {
    forall|i: int| 0 <= i < s.len() ==> s[i] != '/'
}

/// The only `/` characters of `scheme://host` are the two of `://`.
proof fn lemma_head_slashes(scheme: Seq<char>, h: Seq<char>, j: int)
    requires
        no_slash(scheme),
        no_slash(h),
        0 <= j < (scheme + "://"@ + h).len(),
        (scheme + "://"@ + h)[j] == '/',
    ensures
        j == scheme.len() + 1 || j == scheme.len() + 2,
{
    reveal_strlit("://");
    let head = scheme + "://"@ + h;
    if j < scheme.len() {
        assert(head[j] == scheme[j]);
    } else if j >= scheme.len() + 3 {
        assert(head[j] == h[j - scheme.len() - 3]);
    } else if j == scheme.len() {
        assert(head[j] == ':');
    }
}

/// The text of a URI with the segment `/{ns}/` injected after `scheme://h`.
pub open spec fn injected(scheme: Seq<char>, h: Seq<char>, ns: Seq<char>, rest: Seq<char>) -> Seq<char> {
    scheme + "://"@ + h + ("/"@ + ns + "/"@) + rest
}

/// An occurrence of `/{ns}/` inside `scheme://h` can only start at the second
/// slash of `://`.
proof fn lemma_early_occurrence(scheme: Seq<char>, h: Seq<char>, ns: Seq<char>, rest: Seq<char>, j: int)
    requires
        ns.len() > 0,
        no_slash(ns),
        no_slash(scheme),
        no_slash(h),
        0 <= j < (scheme + "://"@ + h).len(),
        occurs_at(injected(scheme, h, ns, rest), "/"@ + ns + "/"@, j),
    ensures
        j == scheme.len() + 2,
{
    reveal_strlit("://");
    reveal_strlit("/");
    let pre = injected(scheme, h, ns, rest);
    let seg = "/"@ + ns + "/"@;
    let head = scheme + "://"@ + h;
    let w = pre.subrange(j, j + seg.len());
    assert(w[0] == pre[j]);
    assert(pre[j] == head[j]);
    lemma_head_slashes(scheme, h, j);
    if j == scheme.len() + 1 {
        assert(w[1] == pre[j + 1]);
        assert(pre[j + 1] == head[j + 1]);
        assert(seg[1] == ns[0]);
    }
}

/// An occurrence of `/{ns}/` at the second slash of `://` means the host is
/// the namespace.
proof fn lemma_second_slash(scheme: Seq<char>, h: Seq<char>, ns: Seq<char>, rest: Seq<char>)
    requires
        ns.len() > 0,
        no_slash(ns),
        no_slash(h),
        occurs_at(injected(scheme, h, ns, rest), "/"@ + ns + "/"@, (scheme.len() + 2) as int),
    ensures
        ns == h,
{
    reveal_strlit("://");
    reveal_strlit("/");
    let pre = injected(scheme, h, ns, rest);
    let seg = "/"@ + ns + "/"@;
    let head = scheme + "://"@ + h;
    let j = (scheme.len() + 2) as int;
    let i = head.len() as int;
    let nl = ns.len() as int;
    let w = pre.subrange(j, j + seg.len());
    assert(pre[i] == '/');
    // The namespace ends before the injected segment starts.
    if j + 1 + nl > i {
        let u = i - j - 1;
        assert(w[u + 1] == pre[i]);
        assert(w[u + 1] == ns[u]);
    }
    // And it ends at a `/`, so not inside the host.
    assert(w[nl + 1] == pre[j + nl + 1]);
    if j + nl + 1 < i {
        assert(pre[j + nl + 1] == h[nl]);
    }
    assert(nl == h.len());
    assert forall|t: int| 0 <= t < nl implies ns[t] == h[t] by {
        assert(w[t + 1] == pre[j + 1 + t]);
    }
    assert(ns =~= h);
}

/// Stripping `/{ns}/` from `scheme://h/{ns}/rest` gives `scheme://h/rest`.
proof fn lemma_strip_injected(scheme: Seq<char>, h: Seq<char>, ns: Seq<char>, rest: Seq<char>)
    requires
        ns.len() > 0,
        no_slash(ns),
        no_slash(scheme),
        no_slash(h),
    ensures
        stripped_uri(Some(ns), injected(scheme, h, ns, rest)) == scheme + "://"@ + h + ("/"@ + rest),
{
    reveal_strlit("://");
    reveal_strlit("/");
    reveal_strlit(":/");
    let pre = injected(scheme, h, ns, rest);
    let seg = "/"@ + ns + "/"@;
    let head = scheme + "://"@ + h;
    let target = head + ("/"@ + rest);
    let i = head.len() as int;
    let j = (scheme.len() + 2) as int;
    assert(pre.subrange(i, i + seg.len()) =~= seg);
    assert(occurs_at(pre, seg, i));
    if occurs_at(pre, seg, j) {
        lemma_second_slash(scheme, h, ns, rest);
        assert forall|q: int| 0 <= q < j implies !occurs_at(pre, seg, q) by {
            if occurs_at(pre, seg, q) {
                lemma_early_occurrence(scheme, h, ns, rest, q);
            }
        }
        assert(is_first_occurrence(pre, seg, j));
        assert forall|q: int| is_first_occurrence(pre, seg, q) implies q == j by {
            if q > j {
                assert(!occurs_at(pre, seg, j));
            }
        }
        let c = choose|q: int| is_first_occurrence(pre, seg, q);
        assert(c == j);
        assert(pre.subrange(0, j) =~= scheme + ":/"@);
        assert(pre.subrange(j + seg.len(), pre.len() as int) =~= ns + "/"@ + rest);
        assert(scheme + ":/"@ + "/"@ + (ns + "/"@ + rest) =~= target);
    } else {
        assert forall|q: int| 0 <= q < i implies !occurs_at(pre, seg, q) by {
            if occurs_at(pre, seg, q) {
                lemma_early_occurrence(scheme, h, ns, rest, q);
            }
        }
        assert(is_first_occurrence(pre, seg, i));
        assert forall|q: int| is_first_occurrence(pre, seg, q) implies q == i by {
            if q > i {
                assert(!occurs_at(pre, seg, i));
            }
        }
        let c = choose|q: int| is_first_occurrence(pre, seg, q);
        assert(c == i);
        assert(pre.subrange(0, i) =~= head);
        assert(pre.subrange(i + seg.len(), pre.len() as int) =~= rest);
    }
}

/// Law: stripping the namespace from a URI it was injected into gives back
/// the URI as the URL parser read it (scheme, `://`, authority, path), for a
/// non-empty namespace without `/`, a scheme and authority without `/` and a
/// path that starts with `/`.
pub proof fn law_strip_undoes_prefix_uri(
    ns: Seq<char>,
    uri: Seq<char>,
    scheme: Seq<char>,
    user: Seq<char>,
    password: Option<Seq<char>>,
    host: Option<Seq<char>>,
    port: Option<u16>,
    path: Seq<char>,
)
    requires
        url_parse_result(uri) == Ok::<_, Seq<char>>((scheme, user, password, host, port, path)),
        ns.len() > 0,
        no_slash(ns),
        no_slash(scheme),
        no_slash(authority(user, password, host, port)),
        path.len() > 0 && path[0] == '/',
    ensures
        stripped_uri(Some(ns), prefixed_uri(Some(ns), uri)) == scheme + "://"@ + authority(
            user,
            password,
            host,
            port,
        ) + path,
{
    reveal_strlit("/");
    let h = authority(user, password, host, port);
    let rest = path.subrange(1, path.len() as int);
    assert(prefixed_uri(Some(ns), uri) =~= injected(scheme, h, ns, rest));
    lemma_strip_injected(scheme, h, ns, rest);
    assert("/"@ + rest =~= path);
}

/// Law: the original name behind a tool's announced name is the tool's own
/// name, when no two tools are renamed alike and the name is not the new
/// name of another tool.
pub proof fn law_original_undoes_announced(p: TransformingProvider, x: Seq<char>, r: Seq<char>)
    requires
        forall|a: Seq<char>, b: Seq<char>|
            p.tool_renames@.contains_key(a) && p.tool_renames@.contains_key(b)
                && p.tool_renames@[a] == p.tool_renames@[b] ==> a == b,
        p.tool_renames@.contains_key(x) || forall|k: Seq<char>|
            p.tool_renames@.contains_key(k) ==> p.tool_renames@[k] != x,
        p.is_original_tool_name(p.announced_tool_name(x), r),
    ensures
        r == x,
{
    let ns = opt_chars(p.namespace);
    let renamed = if p.tool_renames@.contains_key(x) {
        p.tool_renames@[x]
    } else {
        x
    };
    law_unprefix_undoes_prefix(ns, renamed);
    if p.tool_renames@.contains_key(x) {
        assert(p.tool_renames@.contains_key(x) && p.tool_renames@[x] == renamed);
    }
}

} // verus!
