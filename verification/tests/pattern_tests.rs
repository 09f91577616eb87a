use xan_actor::pattern::{wildcard_to_regex, AddressPattern};

#[test]
fn wildcard_becomes_anchored_regex() {
    assert_eq!(wildcard_to_regex("/some/address/1/*"), "^/some/address/1/(\\S+)$");
    assert_eq!(wildcard_to_regex("*"), "^(\\S+)$");
    assert_eq!(wildcard_to_regex(""), "^$");
    assert_eq!(wildcard_to_regex("/a/*/b/*"), "^/a/(\\S+)/b/(\\S+)$");
}

#[test]
fn compiled_pattern_matches_whole_names() {
    let p = AddressPattern::compile("/a/*").unwrap();
    assert!(p.matches("/a/1"));
    assert!(p.matches("/a/1/2"));
    assert!(!p.matches("/a/"));
    assert!(!p.matches("/b/1"));
    assert!(!p.matches("x/a/1"));
    assert!(!p.matches("/a/with space"));
    let exact = AddressPattern::compile("/a/1").unwrap();
    assert!(exact.matches("/a/1"));
    assert!(!exact.matches("/a/12"));
}

#[test]
fn invalid_pattern_is_an_error() {
    assert!(AddressPattern::compile("(").is_err());
    assert!(AddressPattern::compile("/a/[").is_err());
}
