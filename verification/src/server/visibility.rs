//! Hierarchical component visibility filter.
//!
//! `VisibilityFilter` is a centralised, server-level allow/block system that
//! supports key-based and tag-based rules; `SessionVisibility` layers
//! session-scoped rules on top.

use vstd::prelude::*;
use crate::util::string_set::StringSet;

verus! {

/// Some element of `tags` belongs to `set`.
pub open spec fn meets(tags: Set<Seq<char>>, set: Set<Seq<char>>) -> bool {
    exists|t: Seq<char>| tags.contains(t) && set.contains(t)
}

/// The model of an optional set.
pub open spec fn opt_set(s: Option<StringSet>) -> Option<Set<Seq<char>>> {
    match s {
        Some(x) => Some(x@),
        None => None,
    }
}

/// Model of a [`Visibility`] rule.
pub ghost struct VisibilityView {
    pub enabled: bool,
    pub names: Option<Set<Seq<char>>>,
    pub keys: Option<Set<Seq<char>>>,
    pub tags: Option<Set<Seq<char>>>,
    pub match_all: bool,
}

/// Declarative visibility rule applied to a set of components.
pub struct Visibility {
    /// Whether this rule enables (`true`) or disables (`false`) matching components.
    pub enabled: bool,
    /// Specific component names (tool name, resource URI, prompt name) to match.
    pub names: Option<StringSet>,
    /// Stable component keys to match.
    pub keys: Option<StringSet>,
    /// Tags to match (at least one tag must match when set).
    pub tags: Option<StringSet>,
    /// When `true` every condition in this rule must match simultaneously.
    pub match_all: bool,
}

impl View for Visibility {
    type V = VisibilityView;

    open spec fn view(&self) -> VisibilityView {
        VisibilityView {
            enabled: self.enabled,
            names: opt_set(self.names),
            keys: opt_set(self.keys),
            tags: opt_set(self.tags),
            match_all: self.match_all,
        }
    }
}

/// The set of the strings in `v`.
pub open spec fn names_of(v: Seq<String>) -> Set<Seq<char>> {
    Set::new(|x: Seq<char>| exists|i: int| 0 <= i < v.len() && v[i]@ == x)
}

impl Visibility {
    /// A rule that enables the named components.
    pub fn enable_names(names: Vec<String>) -> (r: Visibility)
        ensures
            r@ == (VisibilityView {
                enabled: true,
                names: Some(names_of(names@)),
                keys: None,
                tags: None,
                match_all: false,
            }),
    {
        let set = StringSet::from_vec(names);
        let r = Visibility { enabled: true, names: Some(set), keys: None, tags: None, match_all: false };
        assert(r@.names.unwrap() =~= names_of(names@));
        r
    }

    /// A rule that disables the named components.
    pub fn disable_names(names: Vec<String>) -> (r: Visibility)
        ensures
            r@ == (VisibilityView {
                enabled: false,
                names: Some(names_of(names@)),
                keys: None,
                tags: None,
                match_all: false,
            }),
    {
        let set = StringSet::from_vec(names);
        let r = Visibility {
            enabled: false,
            names: Some(set),
            keys: None,
            tags: None,
            match_all: false,
        };
        assert(r@.names.unwrap() =~= names_of(names@));
        r
    }
}

/// Model of a [`VisibilityFilter`].
pub ghost struct FilterView {
    pub disabled_keys: Set<Seq<char>>,
    pub disabled_tags: Set<Seq<char>>,
    pub enabled_keys: Set<Seq<char>>,
    pub enabled_tags: Set<Seq<char>>,
    pub default_enabled: bool,
}

/// The filter of a fresh server: nothing blocked or allowed, everything visible.
pub open spec fn fresh_filter() -> FilterView {
    FilterView {
        disabled_keys: Set::empty(),
        disabled_tags: Set::empty(),
        enabled_keys: Set::empty(),
        enabled_tags: Set::empty(),
        default_enabled: true,
    }
}

/// `base` extended by an optional set.
pub open spec fn add_opt(base: Set<Seq<char>>, extra: Option<Set<Seq<char>>>) -> Set<Seq<char>> {
    match extra {
        Some(e) => base.union(e),
        None => base,
    }
}

/// The filter after an `enable` call.
pub open spec fn after_enable(
    f: FilterView,
    keys: Option<Set<Seq<char>>>,
    tags: Option<Set<Seq<char>>>,
    only: bool,
) -> FilterView {
    FilterView {
        enabled_keys: add_opt(f.enabled_keys, keys),
        enabled_tags: add_opt(f.enabled_tags, tags),
        default_enabled: if only {
            false
        } else {
            f.default_enabled
        },
        ..f
    }
}

/// The filter after a `disable` call.
pub open spec fn after_disable(
    f: FilterView,
    keys: Option<Set<Seq<char>>>,
    tags: Option<Set<Seq<char>>>,
) -> FilterView {
    FilterView {
        disabled_keys: add_opt(f.disabled_keys, keys),
        disabled_tags: add_opt(f.disabled_tags, tags),
        ..f
    }
}

/// Whether the filter shows a component with `key` and `tags`: the block-list
/// wins, then the allow-list, then the default.
pub open spec fn filter_allows(f: FilterView, key: Seq<char>, tags: Set<Seq<char>>) -> bool {
    if f.disabled_keys.contains(key) || meets(tags, f.disabled_tags) {
        false
    } else if f.enabled_keys.contains(key) || meets(tags, f.enabled_tags) {
        true
    } else {
        f.default_enabled
    }
}

/// Server-level filter that decides whether a component should appear in
/// listing responses.
///
/// By default all components are visible. A key or tag on the block-list hides
/// a component whatever the allow-list says; the allow-list shows components
/// when the default has been switched off with `only`.
pub struct VisibilityFilter {
    disabled_keys: StringSet,
    disabled_tags: StringSet,
    enabled_keys: StringSet,
    enabled_tags: StringSet,
    /// `true` = all components are visible unless explicitly disabled.
    pub default_enabled: bool,
}

impl View for VisibilityFilter {
    type V = FilterView;

    closed spec fn view(&self) -> FilterView {
        FilterView {
            disabled_keys: self.disabled_keys@,
            disabled_tags: self.disabled_tags@,
            enabled_keys: self.enabled_keys@,
            enabled_tags: self.enabled_tags@,
            default_enabled: self.default_enabled,
        }
    }
}

/// Whether some element of `tags` belongs to `set`.
fn any_member(tags: &StringSet, set: &StringSet) -> (r: bool)
    ensures
        r == meets(tags@, set@),
{
    let n = tags.len();
    let mut i: usize = 0;
    while i < n
        invariant
            n == tags.seq().len(),
            i <= n,
            forall|k: int| 0 <= k < i ==> !set@.contains(#[trigger] tags.seq()[k]),
        decreases n - i,
    {
        let t = tags.get(i);
        if set.contains(t.as_str()) {
            return true;
        }
        i = i + 1;
    }
    assert forall|t: Seq<char>| tags@.contains(t) implies !set@.contains(t) by {
        let k = choose|k: int| 0 <= k < tags.seq().len() && tags.seq()[k] == t;
    }
    false
}

impl VisibilityFilter {
    /// A filter that shows everything.
    pub fn new() -> (r: VisibilityFilter)
        ensures
            r@ == fresh_filter(),
    {
        VisibilityFilter {
            disabled_keys: StringSet::new(),
            disabled_tags: StringSet::new(),
            enabled_keys: StringSet::new(),
            enabled_tags: StringSet::new(),
            default_enabled: true,
        }
    }

    /// Add keys and/or tags to the allow-list.
    ///
    /// If `only` is `true` the default visibility is flipped to *disabled* so
    /// that only explicitly enabled items are shown.
    pub fn enable(&mut self, keys: Option<StringSet>, tags: Option<StringSet>, only: bool)
        ensures
            final(self)@ == after_enable(old(self)@, opt_set(keys), opt_set(tags), only),
    {
        if only {
            self.default_enabled = false;
        }
        if let Some(ks) = keys {
            self.enabled_keys.extend(&ks);
        }
        if let Some(ts) = tags {
            self.enabled_tags.extend(&ts);
        }
    }

    /// Add keys and/or tags to the block-list.
    pub fn disable(&mut self, keys: Option<StringSet>, tags: Option<StringSet>)
        ensures
            final(self)@ == after_disable(old(self)@, opt_set(keys), opt_set(tags)),
    {
        if let Some(ks) = keys {
            self.disabled_keys.extend(&ks);
        }
        if let Some(ts) = tags {
            self.disabled_tags.extend(&ts);
        }
    }

    /// Returns whether a component with the given `key` and `tags` is visible.
    ///
    /// Evaluation order:
    /// 1. Explicit block-list wins if the key or any tag is disabled.
    /// 2. Explicit allow-list wins if the key or any tag is enabled.
    /// 3. Fall back to `default_enabled`.
    pub fn is_enabled(&self, key: &str, tags: &StringSet) -> (r: bool)
        ensures
            r == filter_allows(self@, key@, tags@),
    {
        if self.disabled_keys.contains(key) {
            return false;
        }
        if any_member(tags, &self.disabled_tags) {
            return false;
        }
        if self.enabled_keys.contains(key) {
            return true;
        }
        if any_member(tags, &self.enabled_tags) {
            return true;
        }
        self.default_enabled
    }
}

impl Default for VisibilityFilter {
    fn default() -> (r: VisibilityFilter)
        ensures
            r@ == fresh_filter(),
    {
        VisibilityFilter::new()
    }
}

/// Law: a fresh filter shows every component.
pub proof fn law_fresh_filter_shows_all(key: Seq<char>, tags: Set<Seq<char>>)
    ensures
        filter_allows(fresh_filter(), key, tags),
{
}

/// Law: a blocked key stays hidden, whatever is enabled afterwards.
pub proof fn law_block_list_wins(
    f: FilterView,
    key: Seq<char>,
    tags: Set<Seq<char>>,
    keys: Option<Set<Seq<char>>>,
    en_tags: Option<Set<Seq<char>>>,
    only: bool,
)
    requires
        f.disabled_keys.contains(key),
    ensures
        !filter_allows(f, key, tags),
        !filter_allows(after_enable(f, keys, en_tags, only), key, tags),
{
}

/// Law: a component with a blocked tag stays hidden, whatever is enabled afterwards.
pub proof fn law_blocked_tag_hides(
    f: FilterView,
    key: Seq<char>,
    tags: Set<Seq<char>>,
    tag: Seq<char>,
    keys: Option<Set<Seq<char>>>,
    en_tags: Option<Set<Seq<char>>>,
    only: bool,
)
    requires
        f.disabled_tags.contains(tag),
        tags.contains(tag),
    ensures
        !filter_allows(after_enable(f, keys, en_tags, only), key, tags),
{
    assert(meets(tags, after_enable(f, keys, en_tags, only).disabled_tags));
}

/// Law: disabling a key hides it and leaves every other key's visibility as it was.
pub proof fn law_disable_key_is_local(f: FilterView, key: Seq<char>, other: Seq<char>)
    requires
        other != key,
    ensures
        !filter_allows(after_disable(f, Some(set![key]), None), key, Set::empty()),
        filter_allows(after_disable(f, Some(set![key]), None), other, Set::empty())
            == filter_allows(f, other, Set::empty()),
{
    assert(!meets(Set::<Seq<char>>::empty(), f.disabled_tags));
    assert(!meets(Set::<Seq<char>>::empty(), f.enabled_tags));
}

/// Law: in "only" mode, an enabled key is shown and a component that is neither
/// enabled by key nor by tag is hidden.
pub proof fn law_enable_only(
    f: FilterView,
    keys: Set<Seq<char>>,
    key: Seq<char>,
    tags: Set<Seq<char>>,
)
    requires
        !f.disabled_keys.contains(key),
        !meets(tags, f.disabled_tags),
    ensures
        keys.contains(key) ==> filter_allows(after_enable(f, Some(keys), None, true), key, tags),
        !keys.contains(key) && !f.enabled_keys.contains(key) && !meets(tags, f.enabled_tags)
            ==> !filter_allows(after_enable(f, Some(keys), None, true), key, tags),
{
}

/// Law: `enable` turns the default to hidden exactly when asked to (`only`)
/// and never turns it back to visible; it never hides an enabled key or tag.
pub proof fn law_enable_default(
    f: FilterView,
    keys: Option<Set<Seq<char>>>,
    tags: Option<Set<Seq<char>>>,
    only: bool,
)
    ensures
        after_enable(f, keys, tags, only).default_enabled == (f.default_enabled && !only),
        !only ==> after_enable(f, keys, tags, only).default_enabled == f.default_enabled,
        f.enabled_keys.subset_of(after_enable(f, keys, tags, only).enabled_keys),
        f.enabled_tags.subset_of(after_enable(f, keys, tags, only).enabled_tags),
        after_enable(f, keys, tags, only).disabled_keys == f.disabled_keys,
        after_enable(f, keys, tags, only).disabled_tags == f.disabled_tags,
{
}

/// Law: once "only" mode is on, a component stays hidden through any later
/// `enable` unless its key or one of its tags is enabled: enabling other keys
/// does not show everything again.
pub proof fn law_only_mode_persists(
    f: FilterView,
    ks: Set<Seq<char>>,
    keys2: Option<Set<Seq<char>>>,
    tags2: Option<Set<Seq<char>>>,
    only2: bool,
    key: Seq<char>,
    tags: Set<Seq<char>>,
)
    requires
        !ks.contains(key),
        !f.enabled_keys.contains(key),
        !meets(tags, f.enabled_tags),
        keys2 matches Some(k2) ==> !k2.contains(key),
        tags2 matches Some(t2) ==> !meets(tags, t2),
    ensures
        !filter_allows(after_enable(after_enable(f, Some(ks), None, true), keys2, tags2, only2), key, tags),
{
    let g = after_enable(after_enable(f, Some(ks), None, true), keys2, tags2, only2);
    assert(!g.enabled_keys.contains(key));
    if meets(tags, g.enabled_tags) {
        let t = choose|t: Seq<char>| tags.contains(t) && g.enabled_tags.contains(t);
        assert(f.enabled_tags.contains(t) || (tags2 matches Some(t2) && t2.contains(t)));
    }
}

/// The name condition of a rule, where it has one, holds of `name`.
pub open spec fn name_condition(rule: VisibilityView, name: Seq<char>) -> bool {
    match rule.names {
        Some(ns) => ns.contains(name),
        None => false,
    }
}

/// The key condition of a rule, where it has one, holds of the component's
/// key; a component without a key meets no key condition.
pub open spec fn key_condition(rule: VisibilityView, key: Option<Seq<char>>) -> bool {
    match (rule.keys, key) {
        (Some(ks), Some(k)) => ks.contains(k),
        _ => false,
    }
}

/// The tag condition of a rule, where it has one, holds: one of `tags` is listed.
pub open spec fn tag_condition(rule: VisibilityView, tags: Set<Seq<char>>) -> bool {
    match rule.tags {
        Some(ts) => meets(tags, ts),
        None => false,
    }
}

/// Whether a session rule addresses the component `name` (with stable `key`,
/// where it has one) carrying `tags`. With `match_all` every condition that the
/// rule sets must hold, and the rule must set at least one; otherwise one
/// condition that holds is enough.
pub open spec fn rule_matches(
    rule: VisibilityView,
    name: Seq<char>,
    key: Option<Seq<char>>,
    tags: Set<Seq<char>>,
) -> bool {
    if rule.match_all {
        &&& (rule.names is Some || rule.keys is Some || rule.tags is Some)
        &&& (rule.names is Some ==> name_condition(rule, name))
        &&& (rule.keys is Some ==> key_condition(rule, key))
        &&& (rule.tags is Some ==> tag_condition(rule, tags))
    } else {
        name_condition(rule, name) || key_condition(rule, key) || tag_condition(rule, tags)
    }
}

/// The outcome of a list of session rules: the last rule that addresses the
/// component decides; with none, the component is visible.
pub open spec fn session_allows(
    rules: Seq<VisibilityView>,
    name: Seq<char>,
    key: Option<Seq<char>>,
    tags: Set<Seq<char>>,
) -> bool
    decreases rules.len(),
{
    if rules.len() == 0 {
        true
    } else if rule_matches(rules.last(), name, key, tags) {
        rules.last().enabled
    } else {
        session_allows(rules.drop_last(), name, key, tags)
    }
}

/// The model of an optional string.
pub open spec fn opt_str(key: Option<&str>) -> Option<Seq<char>> {
    match key {
        Some(k) => Some(k@),
        None => None,
    }
}

/// Session-scoped visibility rules applied on top of the server-level filter.
pub struct SessionVisibility {
    rules: Vec<Visibility>,
}

impl View for SessionVisibility {
    type V = Seq<VisibilityView>;

    closed spec fn view(&self) -> Seq<VisibilityView> {
        self.rules@.map_values(|r: Visibility| r@)
    }
}

/// Whether `rule` addresses the component `name` (with `key`) carrying `tags`.
fn matches_rule(rule: &Visibility, name: &str, key: Option<&str>, tags: &StringSet) -> (r: bool)
    ensures
        r == rule_matches(rule@, name@, opt_str(key), tags@),
{
    let name_match = match &rule.names {
        Some(ns) => ns.contains(name),
        None => false,
    };
    let key_match = match (&rule.keys, key) {
        (Some(ks), Some(k)) => ks.contains(k),
        _ => false,
    };
    let tag_match = match &rule.tags {
        Some(ts) => any_member(tags, ts),
        None => false,
    };
    if rule.match_all {
        let any_condition = rule.names.is_some() || rule.keys.is_some() || rule.tags.is_some();
        any_condition && (rule.names.is_none() || name_match) && (rule.keys.is_none() || key_match)
            && (rule.tags.is_none() || tag_match)
    } else {
        name_match || key_match || tag_match
    }
}

impl SessionVisibility {
    /// No rules.
    pub fn new() -> (r: SessionVisibility)
        ensures
            r@ == Seq::<VisibilityView>::empty(),
    {
        let r = SessionVisibility { rules: Vec::new() };
        assert(r@ =~= Seq::<VisibilityView>::empty());
        r
    }

    /// Appends a rule; later rules override earlier ones.
    pub fn add_rule(&mut self, rule: Visibility)
        ensures
            final(self)@ == old(self)@.push(rule@),
    {
        let ghost rv = rule@;
        self.rules.push(rule);
        assert(self@ =~= old(self)@.push(rv));
    }

    /// Apply the accumulated rules to a component known by its name and tags:
    /// the last rule that addresses it decides; when none does it is visible.
    pub fn is_enabled(&self, name: &str, tags: &StringSet) -> (r: bool)
        ensures
            r == session_allows(self@, name@, None, tags@),
    {
        self.is_enabled_keyed(name, None, tags)
    }

    /// Apply the accumulated rules to a component known by its name, its stable
    /// key (where it has one) and its tags: the last rule that addresses it
    /// decides; when none does it is visible.
    pub fn is_enabled_keyed(&self, name: &str, key: Option<&str>, tags: &StringSet) -> (r: bool)
        ensures
            r == session_allows(self@, name@, opt_str(key), tags@),
    {
        let mut result = true;
        let mut i: usize = 0;
        assert(self@.take(0) =~= Seq::<VisibilityView>::empty());
        while i < self.rules.len()
            invariant
                i <= self.rules@.len(),
                self@.len() == self.rules@.len(),
                result == session_allows(self@.take(i as int), name@, opt_str(key), tags@),
            decreases self.rules@.len() - i,
        {
            let rule = &self.rules[i];
            proof {
                assert(self@.take(i + 1).drop_last() =~= self@.take(i as int));
                assert(self@.take(i + 1).last() == rule@);
            }
            if matches_rule(rule, name, key, tags) {
                result = rule.enabled;
            }
            i = i + 1;
        }
        assert(self@.take(self@.len() as int) =~= self@);
        result
    }
}

impl Default for SessionVisibility {
    fn default() -> (r: SessionVisibility)
        ensures
            r@ == Seq::<VisibilityView>::empty(),
    {
        SessionVisibility::new()
    }
}

/// Law: a rule added last decides for every component it addresses.
pub proof fn law_last_rule_overrides(
    rules: Seq<VisibilityView>,
    rule: VisibilityView,
    name: Seq<char>,
    key: Option<Seq<char>>,
    tags: Set<Seq<char>>,
)
    requires
        rule_matches(rule, name, key, tags),
    ensures
        session_allows(rules.push(rule), name, key, tags) == rule.enabled,
{
}

/// Law: a rule that does not address a component leaves its visibility unchanged.
pub proof fn law_unrelated_rule_keeps(
    rules: Seq<VisibilityView>,
    rule: VisibilityView,
    name: Seq<char>,
    key: Option<Seq<char>>,
    tags: Set<Seq<char>>,
)
    requires
        !rule_matches(rule, name, key, tags),
    ensures
        session_allows(rules.push(rule), name, key, tags) == session_allows(rules, name, key, tags),
{
    assert(rules.push(rule).drop_last() =~= rules);
}

/// Law: a rule with `match_all` addresses a component only when every condition
/// it sets holds; with one failing condition it is passed over.
pub proof fn law_match_all_needs_every_condition(
    rule: VisibilityView,
    name: Seq<char>,
    key: Option<Seq<char>>,
    tags: Set<Seq<char>>,
)
    requires
        rule.match_all,
    ensures
        rule_matches(rule, name, key, tags) ==> (rule.names is Some ==> name_condition(rule, name)),
        rule_matches(rule, name, key, tags) ==> (rule.keys is Some ==> key_condition(rule, key)),
        rule_matches(rule, name, key, tags) ==> (rule.tags is Some ==> tag_condition(rule, tags)),
{
}

/// Law: without `match_all`, one condition that holds is enough for a rule to
/// address a component.
pub proof fn law_any_condition_suffices(
    rule: VisibilityView,
    name: Seq<char>,
    key: Option<Seq<char>>,
    tags: Set<Seq<char>>,
)
    requires
        !rule.match_all,
        name_condition(rule, name) || key_condition(rule, key) || tag_condition(rule, tags),
    ensures
        rule_matches(rule, name, key, tags),
{
}

} // verus!
