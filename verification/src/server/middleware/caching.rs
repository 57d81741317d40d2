//! Response caching keyed by method and parameters.
//!
//! Responses to the listing, reading and calling methods are kept in a
//! least-recently-used cache for a fixed time. A later request with the same
//! method and parameters is answered from the cache, under its own id.

use vstd::prelude::*;
use lru::LruCache;
use std::time::Instant;
use crate::error::FastMCPError;
use crate::mcp::types::{JsonRpcRequest, JsonRpcResponse, JsonValue};
use crate::util::json_text::{serde_json_text, to_json_text};
use crate::util::text::{owned, str_eq};

verus! {

/// `std::time::Instant`, held by cache entries.
#[verifier::external_type_specification]
#[verifier::external_body]
pub struct ExInstant(std::time::Instant);

/// `lru::LruCache`, declared so that it can be held in fields.
#[verifier::external_type_specification]
#[verifier::external_body]
#[verifier::reject_recursive_types(K)]
#[verifier::reject_recursive_types(V)]
#[verifier::reject_recursive_types(S)]
pub struct ExLruCache<K, V, S>(lru::LruCache<K, V, S>);

/// The hasher `lru::LruCache` uses by default.
#[verifier::external_type_specification]
#[verifier::external_body]
pub struct ExLruHasher(lru::DefaultHasher);

/// Key of a cached response: the method and the text of the parameters.
pub type CacheKey = (String, String);

/// A cached response with the time it was stored and how long it stays valid.
pub struct CacheEntry {
    pub response: JsonRpcResponse,
    pub created_at: Instant,
    pub ttl_secs: u64,
}

/// The model of a cache key.
pub open spec fn key_view(k: CacheKey) -> (Seq<char>, Seq<char>) {
    (k.0@, k.1@)
}

/// What an LRU cache of responses holds, most recently used first.
pub uninterp spec fn cache_entries(c: LruCache<CacheKey, CacheEntry>) -> Seq<
    ((Seq<char>, Seq<char>), CacheEntry),
>;

/// How many entries an LRU cache of responses holds at most.
pub uninterp spec fn cache_capacity(c: LruCache<CacheKey, CacheEntry>) -> nat;

/// Position of the entry with key `k` (the first one), or -1.
pub open spec fn key_index(s: Seq<((Seq<char>, Seq<char>), CacheEntry)>, k: (Seq<char>, Seq<char>)) -> int
    decreases s.len(),
{
    if s.len() == 0 {
        -1
    } else if s[0].0 == k {
        0
    } else {
        let r = key_index(s.drop_first(), k);
        if r < 0 {
            -1
        } else {
            r + 1
        }
    }
}

proof fn lemma_key_index(s: Seq<((Seq<char>, Seq<char>), CacheEntry)>, k: (Seq<char>, Seq<char>))
    ensures
        -1 <= key_index(s, k) < s.len(),
        key_index(s, k) >= 0 ==> s[key_index(s, k)].0 == k,
        key_index(s, k) < 0 ==> forall|j: int| 0 <= j < s.len() ==> s[j].0 != k,
    decreases s.len(),
{
    if s.len() > 0 {
        lemma_key_index(s.drop_first(), k);
        if key_index(s, k) < 0 {
            assert forall|j: int| 0 <= j < s.len() implies s[j].0 != k by {
                if j > 0 {
                    assert(s.drop_first()[j - 1] == s[j]);
                }
            }
        }
    }
}

/// The entries after `k` was looked up: a present key moves to the front.
pub open spec fn touched(s: Seq<((Seq<char>, Seq<char>), CacheEntry)>, k: (Seq<char>, Seq<char>)) -> Seq<
    ((Seq<char>, Seq<char>), CacheEntry),
> {
    let i = key_index(s, k);
    if i >= 0 {
        seq![s[i]] + s.remove(i)
    } else {
        s
    }
}

/// The entries after `(k, v)` was stored in a cache of capacity `cap`: the
/// entry goes to the front, replacing an entry with the same key, or else
/// pushing out the least recently used entry when the cache is full.
pub open spec fn stored(
    s: Seq<((Seq<char>, Seq<char>), CacheEntry)>,
    cap: nat,
    k: (Seq<char>, Seq<char>),
    v: CacheEntry,
) -> Seq<((Seq<char>, Seq<char>), CacheEntry)> {
    let i = key_index(s, k);
    if i >= 0 {
        seq![(k, v)] + s.remove(i)
    } else if s.len() == cap {
        seq![(k, v)] + s.drop_last()
    } else {
        seq![(k, v)] + s
    }
}

/// The entries after the entry with key `k` was removed.
pub open spec fn popped(s: Seq<((Seq<char>, Seq<char>), CacheEntry)>, k: (Seq<char>, Seq<char>)) -> Seq<
    ((Seq<char>, Seq<char>), CacheEntry),
> {
    let i = key_index(s, k);
    if i >= 0 {
        s.remove(i)
    } else {
        s
    }
}

/// Wraps `LruCache::new` (with `NonZeroUsize::new(cap)`): an empty cache of
/// capacity `cap`.
#[verifier::external_body]
fn lru_new(cap: usize) -> (r: LruCache<CacheKey, CacheEntry>)
    requires
        cap > 0,
    ensures
        cache_entries(r) =~= Seq::empty(),
        cache_capacity(r) == cap,
{
    LruCache::new(std::num::NonZeroUsize::new(cap).unwrap())
}

/// Wraps `LruCache::get`: the entry for the key, which becomes the most
/// recently used.
#[verifier::external_body]
fn lru_get<'a>(c: &'a mut LruCache<CacheKey, CacheEntry>, k: &CacheKey) -> (r: Option<
    &'a CacheEntry,
>)
    ensures
        cache_capacity(*final(c)) == cache_capacity(*old(c)),
        cache_entries(*final(c)) == touched(cache_entries(*old(c)), key_view(*k)),
        ({
            let i = key_index(cache_entries(*old(c)), key_view(*k));
            if i >= 0 {
                r matches Some(e) && *e == cache_entries(*old(c))[i].1
            } else {
                r is None
            }
        }),
{
    c.get(k)
}

/// Wraps `LruCache::put`: see `stored`.
#[verifier::external_body]
fn lru_put(c: &mut LruCache<CacheKey, CacheEntry>, k: CacheKey, v: CacheEntry)
    ensures
        cache_capacity(*final(c)) == cache_capacity(*old(c)),
        cache_entries(*final(c)) == stored(
            cache_entries(*old(c)),
            cache_capacity(*old(c)),
            key_view(k),
            v,
        ),
{
    c.put(k, v);
}

/// Wraps `LruCache::pop`: the entry with the key is removed.
#[verifier::external_body]
fn lru_pop(c: &mut LruCache<CacheKey, CacheEntry>, k: &CacheKey)
    ensures
        cache_capacity(*final(c)) == cache_capacity(*old(c)),
        cache_entries(*final(c)) == popped(cache_entries(*old(c)), key_view(*k)),
{
    c.pop(k);
}

/// Wraps `Instant::now`; which instant comes back is left open.
#[verifier::external_body]
fn instant_now() -> (r: Instant) {
    Instant::now()
}

/// Wraps `Instant::elapsed` in nanoseconds; the value depends on the clock and
/// is left open.
#[verifier::external_body]
fn elapsed_nanos(t: &Instant) -> (r: u128) {
    t.elapsed().as_nanos()
}

/// The text of request parameters in a cache key.
pub open spec fn params_text(params: Option<JsonValue>) -> Seq<char> {
    match params {
        Some(v) => serde_json_text(v@),
        None => "null"@,
    }
}

/// Methods whose responses are cached.
pub open spec fn cacheable(method: Seq<char>) -> bool {
    method == "tools/list"@ || method == "resources/list"@ || method == "prompts/list"@ || method
        == "tools/call"@ || method == "resources/read"@ || method == "prompts/get"@
}

/// Whether responses to `method` are cached.
pub fn is_cacheable(method: &str) -> (r: bool)
    ensures
        r == cacheable(method@),
{
    str_eq(method, "tools/list") || str_eq(method, "resources/list") || str_eq(
        method,
        "prompts/list",
    ) || str_eq(method, "tools/call") || str_eq(method, "resources/read") || str_eq(
        method,
        "prompts/get",
    )
}

/// A response equal to `r` in every field.
pub fn copy_response(r: &JsonRpcResponse) -> (c: JsonRpcResponse)
    ensures
        c.jsonrpc@ == r.jsonrpc@,
        c.id == r.id,
        c.result@ == r.result@,
{
    JsonRpcResponse { jsonrpc: r.jsonrpc.clone(), id: r.id.copy(), result: r.result.deep_copy() }
}

impl CacheEntry {
    /// Whether the entry is stale after `elapsed` nanoseconds: more than its
    /// time to live has passed.
    pub fn expired_after(&self, elapsed: u128) -> (r: bool)
        ensures
            r == (elapsed > self.ttl_secs * 1_000_000_000),
    {
        elapsed > (self.ttl_secs as u128) * 1_000_000_000
    }

    /// Whether more than the entry's time to live has passed since it was
    /// stored (as `expired_after` decides for the time the clock gives).
    pub fn is_expired(&self) -> (r: bool) {
        self.expired_after(elapsed_nanos(&self.created_at))
    }
}

/// The outcome of looking a request up in the cache.
pub enum Lookup {
    /// A stored response, answered under the request's id.
    Hit(JsonRpcResponse),
    /// Not answered from the cache; the key under which to store the reply, if
    /// the method is cached.
    Miss(Option<CacheKey>),
}

/// Caches responses of the listing, reading and calling methods.
pub struct CacheMiddleware {
    cache: LruCache<CacheKey, CacheEntry>,
    default_ttl_secs: u64,
}

impl CacheMiddleware {
    /// What the cache holds, most recently used first.
    pub closed spec fn entries(self) -> Seq<((Seq<char>, Seq<char>), CacheEntry)> {
        cache_entries(self.cache)
    }

    /// How many responses the cache keeps at most.
    pub closed spec fn capacity(self) -> nat {
        cache_capacity(self.cache)
    }

    /// How long stored responses stay valid, in seconds.
    pub closed spec fn ttl(self) -> u64 {
        self.default_ttl_secs
    }

    /// An empty cache holding at most `capacity` responses for
    /// `default_ttl_secs` seconds each.
    pub fn new(capacity: usize, default_ttl_secs: u64) -> (r: CacheMiddleware)
        requires
            capacity > 0,
        ensures
            r.entries() =~= Seq::empty(),
            r.capacity() == capacity,
            r.ttl() == default_ttl_secs,
    {
        CacheMiddleware { cache: lru_new(capacity), default_ttl_secs }
    }

    /// The cache key of a request: its method and the JSON text of its
    /// parameters (`null` without parameters), for the cached methods only.
    pub fn get_cache_key(req: &JsonRpcRequest) -> (r: Option<CacheKey>)
        ensures
            cacheable(req.method@) <==> r is Some,
            r matches Some(k) ==> k.0@ == req.method@ && k.1@ == params_text(req.params),
    {
        if !is_cacheable(req.method.as_str()) {
            return None;
        }
        let p = match &req.params {
            Some(v) => to_json_text(v),
            None => owned("null"),
        };
        Some((req.method.clone(), p))
    }

    /// Looks a request up. A stored, fresh response for the same key is
    /// answered under the request's id (and becomes the most recently used);
    /// a stale one is dropped.
    pub fn lookup(&mut self, req: &JsonRpcRequest) -> (r: Lookup)
        ensures
            final(self).capacity() == old(self).capacity(),
            final(self).ttl() == old(self).ttl(),
            !cacheable(req.method@) ==> r == Lookup::Miss(None) && final(self).entries()
                == old(self).entries(),
            cacheable(req.method@) ==> ({
                let k = (req.method@, params_text(req.params));
                let i = key_index(old(self).entries(), k);
                &&& i < 0 ==> {
                    &&& final(self).entries() == old(self).entries()
                    &&& r matches Lookup::Miss(Some(key)) && key_view(key) == k
                }
                &&& i >= 0 ==> match r {
                    Lookup::Hit(resp) => {
                        let e = old(self).entries()[i].1;
                        &&& final(self).entries() == touched(old(self).entries(), k)
                        &&& resp.jsonrpc@ == e.response.jsonrpc@
                        &&& resp.id == req.id
                        &&& resp.result@ == e.response.result@
                    },
                    Lookup::Miss(key) => {
                        &&& final(self).entries() == popped(touched(old(self).entries(), k), k)
                        &&& key matches Some(key) && key_view(key) == k
                    },
                }
            }),
    {
        let key_opt = CacheMiddleware::get_cache_key(req);
        match key_opt {
            None => Lookup::Miss(None),
            Some(key) => {
                let mut expired = false;
                let hit = match lru_get(&mut self.cache, &key) {
                    Some(entry) => {
                        if !entry.is_expired() {
                            let mut resp = copy_response(&entry.response);
                            resp.id = req.id.copy();
                            Some(resp)
                        } else {
                            expired = true;
                            None
                        }
                    },
                    None => None,
                };
                match hit {
                    Some(resp) => Lookup::Hit(resp),
                    None => {
                        if expired {
                            lru_pop(&mut self.cache, &key);
                        }
                        Lookup::Miss(Some(key))
                    },
                }
            },
        }
    }

    /// Stores a successful reply under the key the lookup gave; a failure, or
    /// a request whose method is not cached, stores nothing.
    pub fn store(&mut self, key: Option<CacheKey>, result: &Result<JsonRpcResponse, FastMCPError>)
        ensures
            final(self).capacity() == old(self).capacity(),
            final(self).ttl() == old(self).ttl(),
            (key is None || result is Err) ==> final(self).entries() == old(self).entries(),
            (key matches Some(k) && result matches Ok(resp)) ==> ({
                let s = final(self).entries();
                &&& s.len() > 0
                &&& s[0].0 == key_view(key->Some_0)
                &&& s[0].1.ttl_secs == old(self).ttl()
                &&& s[0].1.response.id == result->Ok_0.id
                &&& s[0].1.response.result@ == result->Ok_0.result@
                &&& s[0].1.response.jsonrpc@ == result->Ok_0.jsonrpc@
                &&& s == stored(
                    old(self).entries(),
                    old(self).capacity(),
                    key_view(key->Some_0),
                    s[0].1,
                )
            }),
    {
        match (key, result) {
            (Some(k), Ok(resp)) => {
                let entry = CacheEntry {
                    response: copy_response(resp),
                    created_at: instant_now(),
                    ttl_secs: self.default_ttl_secs,
                };
                lru_put(&mut self.cache, k, entry);
            },
            _ => {},
        }
    }
}

/// Law: the entry just stored is the first one found for its key.
pub proof fn law_stored_is_found_first(
    s: Seq<((Seq<char>, Seq<char>), CacheEntry)>,
    cap: nat,
    k: (Seq<char>, Seq<char>),
    v: CacheEntry,
)
    ensures
        key_index(stored(s, cap, k, v), k) == 0,
        stored(s, cap, k, v)[0] == (k, v),
{
}

/// Law: a cache that holds at most `cap` entries still does after a store
/// (a positive capacity).
pub proof fn law_store_keeps_capacity(
    s: Seq<((Seq<char>, Seq<char>), CacheEntry)>,
    cap: nat,
    k: (Seq<char>, Seq<char>),
    v: CacheEntry,
)
    requires
        cap > 0,
        s.len() <= cap,
    ensures
        stored(s, cap, k, v).len() <= cap,
{
    lemma_key_index(s, k);
}

/// Law: looking an entry up neither adds nor drops entries; it only moves
/// the one looked up to the front.
pub proof fn law_touch_keeps_entries(s: Seq<((Seq<char>, Seq<char>), CacheEntry)>, k: (Seq<char>, Seq<char>))
    ensures
        touched(s, k).len() == s.len(),
        touched(s, k).to_multiset() == s.to_multiset(),
{
    lemma_key_index(s, k);
    let i = key_index(s, k);
    if i >= 0 {
        let r = s.remove(i);
        assert(touched(s, k) == seq![s[i]] + r);
        vstd::seq_lib::lemma_multiset_commutative(seq![s[i]], r);
        assert(s =~= s.subrange(0, i) + s.subrange(i, s.len() as int));
        assert(r =~= s.subrange(0, i) + s.subrange(i + 1, s.len() as int));
        assert(s.subrange(i, s.len() as int) =~= seq![s[i]] + s.subrange(i + 1, s.len() as int));
        vstd::seq_lib::lemma_multiset_commutative(s.subrange(0, i), s.subrange(i, s.len() as int));
        vstd::seq_lib::lemma_multiset_commutative(seq![s[i]], s.subrange(i + 1, s.len() as int));
        vstd::seq_lib::lemma_multiset_commutative(s.subrange(0, i), s.subrange(i + 1, s.len() as int));
    }
}

} // verus!
