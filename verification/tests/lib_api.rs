#[test]
fn test_version() {
    assert!(!jsb_std::VERSION.is_empty());
}

#[test]
fn test_init() {
    assert!(jsb_std::init().is_ok());
}
