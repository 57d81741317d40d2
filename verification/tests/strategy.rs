use rs_fast_mcp::server::strategy::DuplicateStrategy;

#[test]
fn test_default_is_warn() {
    assert_eq!(DuplicateStrategy::default(), DuplicateStrategy::Warn);
}

#[test]
fn test_clone_and_copy() {
    let s = DuplicateStrategy::Error;
    let cloned = s.clone();
    let copied = s;
    assert_eq!(cloned, copied);
}
