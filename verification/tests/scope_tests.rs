use oauth_server::scope::compare_scope_strings;

#[test]
fn requested_scopes_within_allowed() {
    assert!(compare_scope_strings("read", "read write"));
    assert!(compare_scope_strings("write read", "read write"));
    assert!(compare_scope_strings("read read", "read"));
}

#[test]
fn requested_scope_outside_allowed() {
    assert!(!compare_scope_strings("read admin", "read write"));
    assert!(!compare_scope_strings("Read", "read"));
    assert!(!compare_scope_strings("rea", "read"));
    assert!(!compare_scope_strings("read", ""));
}

#[test]
fn no_requested_scope_is_always_allowed() {
    assert!(compare_scope_strings("", ""));
    assert!(compare_scope_strings("", "read"));
    assert!(compare_scope_strings(" \t\n", "read"));
}

#[test]
fn scopes_allowed_is_reflexive() {
    for s in ["", "a", "a b  c", " x\ty "] {
        assert!(compare_scope_strings(s, s));
    }
}

#[test]
fn scopes_allowed_is_transitive() {
    let (a, b, c) = ("read", "read write", "admin write read");
    assert!(compare_scope_strings(a, b));
    assert!(compare_scope_strings(b, c));
    assert!(compare_scope_strings(a, c));
}

#[test]
fn joined_requests_allowed_when_each_is() {
    let allowed = "read write";
    assert!(compare_scope_strings("read", allowed));
    assert!(compare_scope_strings("write", allowed));
    assert!(compare_scope_strings("read write", allowed));
    assert!(!compare_scope_strings("read admin", allowed));
}
