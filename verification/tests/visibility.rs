use rs_fast_mcp::server::visibility::{SessionVisibility, Visibility, VisibilityFilter};
use rs_fast_mcp::util::string_set::StringSet;

fn set(items: &[&str]) -> StringSet {
    StringSet::from_vec(items.iter().map(|s| s.to_string()).collect())
}

fn none() -> StringSet {
    StringSet::new()
}

#[test]
fn test_default_all_enabled() {
    let f = VisibilityFilter::new();
    assert!(f.is_enabled("tool1", &none()));
}

#[test]
fn test_disable_key() {
    let mut f = VisibilityFilter::new();
    f.disable(Some(set(&["tool1"])), None);
    assert!(!f.is_enabled("tool1", &none()));
    assert!(f.is_enabled("tool2", &none()));
}

#[test]
fn test_enable_only_mode() {
    let mut f = VisibilityFilter::new();
    f.enable(Some(set(&["tool1"])), None, true);
    assert!(f.is_enabled("tool1", &none()));
    assert!(!f.is_enabled("tool2", &none()));
}

#[test]
fn test_disable_tag() {
    let mut f = VisibilityFilter::new();
    f.disable(None, Some(set(&["internal"])));
    let tags = set(&["internal"]);
    assert!(!f.is_enabled("anything", &tags));
    assert!(f.is_enabled("anything", &none()));
}

#[test]
fn test_session_visibility_override() {
    let mut sv = SessionVisibility::new();
    sv.add_rule(Visibility::disable_names(vec!["tool1".to_string()]));
    sv.add_rule(Visibility::enable_names(vec!["tool1".to_string()]));
    assert!(sv.is_enabled("tool1", &none()));
}

#[test]
fn block_list_wins_over_allow_list() {
    let mut f = VisibilityFilter::new();
    f.enable(Some(set(&["tool1"])), None, true);
    f.disable(Some(set(&["tool1"])), None);
    assert!(!f.is_enabled("tool1", &none()));
}

#[test]
fn disabling_a_key_leaves_other_keys_alone() {
    let mut f = VisibilityFilter::new();
    f.disable(Some(set(&["a"])), None);
    assert!(f.is_enabled("b", &set(&["x"])));
    assert!(!f.is_enabled("a", &set(&["x"])));
}

#[test]
fn enable_only_by_tag() {
    let mut f = VisibilityFilter::new();
    f.enable(None, Some(set(&["public"])), true);
    assert!(f.is_enabled("anything", &set(&["public", "other"])));
    assert!(!f.is_enabled("anything", &set(&["other"])));
    assert!(!f.is_enabled("anything", &none()));
}

#[test]
fn session_last_rule_overrides_earlier_ones() {
    let mut sv = SessionVisibility::new();
    sv.add_rule(Visibility::enable_names(vec!["tool1".to_string()]));
    sv.add_rule(Visibility::disable_names(vec!["tool1".to_string()]));
    assert!(!sv.is_enabled("tool1", &none()));
}

#[test]
fn session_rule_for_other_name_changes_nothing() {
    let mut sv = SessionVisibility::new();
    assert!(sv.is_enabled("tool1", &none()));
    sv.add_rule(Visibility::disable_names(vec!["tool2".to_string()]));
    assert!(sv.is_enabled("tool1", &none()));
    assert!(!sv.is_enabled("tool2", &none()));
}

#[test]
fn session_match_all_rule_needs_every_condition() {
    let mut sv = SessionVisibility::new();
    sv.add_rule(Visibility {
        enabled: false,
        names: Some(set(&["a"])),
        keys: None,
        tags: Some(set(&["t"])),
        match_all: true,
    });
    assert!(sv.is_enabled("a", &none()));
    assert!(sv.is_enabled("b", &set(&["t"])));
    assert!(!sv.is_enabled("a", &set(&["t"])));
}

#[test]
fn session_rule_without_match_all_needs_one_condition() {
    let mut sv = SessionVisibility::new();
    sv.add_rule(Visibility {
        enabled: false,
        names: Some(set(&["a"])),
        keys: None,
        tags: Some(set(&["t"])),
        match_all: false,
    });
    assert!(!sv.is_enabled("a", &none()));
    assert!(!sv.is_enabled("b", &set(&["t"])));
    assert!(sv.is_enabled("b", &none()));
}

#[test]
fn session_rule_matches_by_key() {
    let mut sv = SessionVisibility::new();
    sv.add_rule(Visibility {
        enabled: false,
        names: None,
        keys: Some(set(&["tool:a"])),
        tags: None,
        match_all: false,
    });
    assert!(!sv.is_enabled_keyed("a", Some("tool:a"), &none()));
    assert!(sv.is_enabled_keyed("a", Some("tool:b"), &none()));
    assert!(sv.is_enabled("a", &none()));
}
