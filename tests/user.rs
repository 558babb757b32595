use kick_api::TokenIntrospection;

#[test]
fn test_token_scopes() {
    let token = TokenIntrospection {
        active: true,
        client_id: Some("test".to_string()),
        token_type: Some("Bearer".to_string()),
        scope: Some("user:read channel:read".to_string()),
        exp: Some(9999999999),
    };

    assert_eq!(token.scopes(), vec!["user:read", "channel:read"]);
    assert!(token.has_scope("user:read"));
    assert!(token.has_scope("channel:read"));
    assert!(!token.has_scope("chat:write"));
}

#[test]
fn test_token_expiry() {
    let expired = TokenIntrospection {
        active: true,
        client_id: Some("test".to_string()),
        token_type: Some("Bearer".to_string()),
        scope: Some("user:read".to_string()),
        exp: Some(0),
    };

    assert!(expired.is_expired());

    let valid = TokenIntrospection {
        active: true,
        client_id: Some("test".to_string()),
        token_type: Some("Bearer".to_string()),
        scope: Some("user:read".to_string()),
        exp: Some(9999999999),
    };

    assert!(!valid.is_expired());
}

fn token(scope: Option<&str>, exp: Option<i64>) -> TokenIntrospection {
    TokenIntrospection {
        active: false,
        client_id: None,
        token_type: None,
        scope: scope.map(|s| s.to_string()),
        exp,
    }
}

#[test]
fn scopes_split_at_any_white_space() {
    let t = token(Some("  a\tb\n\nc\u{3000}d  "), None);
    assert_eq!(t.scopes(), vec!["a", "b", "c", "d"]);
    assert!(!t.is_active());
}

#[test]
fn scopes_of_missing_or_blank_scope_are_empty() {
    assert!(token(None, None).scopes().is_empty());
    assert!(token(Some("   "), None).scopes().is_empty());
    assert!(token(Some(""), None).scopes().is_empty());
    assert!(!token(None, None).has_scope(""));
}

#[test]
fn has_scope_needs_whole_word() {
    let t = token(Some("user:read"), None);
    assert!(!t.has_scope("user"));
    assert!(!t.has_scope("user:read:all"));
}

#[test]
fn expiry_at_given_time() {
    let t = token(None, Some(100));
    assert!(!t.is_expired_at(99));
    assert!(t.is_expired_at(100));
    assert!(t.is_expired_at(101));
    assert!(!token(None, None).is_expired_at(i64::MAX));
    assert!(!token(None, None).is_expired());
}
