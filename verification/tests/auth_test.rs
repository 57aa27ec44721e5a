use scribe::auth::bearer_authorized;

#[test]
fn bearer_token_must_match_secret() {
    assert!(bearer_authorized(Some("Bearer s3cret"), "s3cret"));
    assert!(!bearer_authorized(Some("Bearer wrong"), "s3cret"));
    assert!(!bearer_authorized(Some("Basic s3cret"), "s3cret"));
    assert!(!bearer_authorized(None, "s3cret"));
    assert!(!bearer_authorized(Some("bearer s3cret"), "s3cret"));
}

#[test]
fn missing_header_passes_only_an_empty_secret() {
    assert!(bearer_authorized(None, ""));
    assert!(bearer_authorized(Some("Basic x"), ""));
    assert!(bearer_authorized(Some("Bearer "), ""));
}
