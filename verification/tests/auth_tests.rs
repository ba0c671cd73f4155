use sublinear::auth::{ensure_auth, is_authorized, trim_spaces};
use sublinear::errors::CoreError;

#[test]
fn auth_disabled_always_authorizes() {
    assert!(is_authorized(false, None, None));
    assert!(is_authorized(false, Some(""), Some("secret")));
}

#[test]
fn auth_required_missing_header_rejects() {
    assert!(!is_authorized(true, None, None));
    assert!(!is_authorized(true, None, Some("secret")));
}

#[test]
fn auth_required_blank_header_rejects() {
    assert!(!is_authorized(true, Some(""), None));
    assert!(!is_authorized(true, Some("   \t  "), None));
}

#[test]
fn auth_no_secret_any_nonempty_credential_authorizes() {
    assert!(is_authorized(true, Some("anything"), None));
    assert!(is_authorized(true, Some("  padded  "), None));
}

#[test]
fn auth_with_secret_requires_match() {
    assert!(is_authorized(true, Some("secret"), Some("secret")));
    assert!(is_authorized(true, Some("Bearer secret"), Some("secret")));
    assert!(is_authorized(true, Some("  secret  "), Some("secret")));
    assert!(!is_authorized(true, Some("wrong"), Some("secret")));
    assert!(!is_authorized(true, Some("Bearer wrong"), Some("secret")));
    assert!(!is_authorized(true, Some("bearer secret"), Some("secret")));
}

#[test]
fn trim_spaces_strips_both_ends() {
    assert_eq!(trim_spaces("  a b  "), "a b");
    assert_eq!(trim_spaces("\t\r\nx\n"), "x");
    assert_eq!(trim_spaces("   "), "");
}

#[test]
fn ensure_auth_gates_operations() {
    assert!(ensure_auth(false, None).is_ok());
    assert!(ensure_auth(true, Some(true)).is_ok());
    assert!(matches!(ensure_auth(true, Some(false)), Err(CoreError::Unauthorized)));
    assert!(matches!(ensure_auth(true, None), Err(CoreError::Unauthorized)));
    let err = ensure_auth(true, None).unwrap_err();
    assert_eq!(err.message(), "Unauthorized");
}
