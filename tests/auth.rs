use lets_talk_auth::{
    is_allowed, resolve_optional, resolve_required, AuthError, OptionalUser, PolicyConfig,
    RequiredUser, UserRecord,
};

fn record() -> UserRecord {
    UserRecord {
        id: 42,
        identity: "alice".to_string(),
        name: "Alice Doe".to_string(),
        email: "alice@example.com".to_string(),
        verified_email: true,
    }
}

fn user(email: &str, verified: bool) -> RequiredUser {
    RequiredUser {
        user_id: 1,
        username: "u".to_string(),
        email: email.to_string(),
        email_is_verified: verified,
        name: "U".to_string(),
    }
}

fn config(domains: &[&str], require_verification: bool) -> PolicyConfig {
    PolicyConfig {
        allowed_domains: domains.iter().map(|d| d.to_string()).collect(),
        require_verification,
    }
}

#[test]
fn required_without_session_is_not_authenticated() {
    assert_eq!(resolve_required(None).unwrap_err(), AuthError::NotAuthenticated);
}

#[test]
fn optional_without_session_is_anonymous() {
    let u = resolve_optional(None);
    assert!(!u.is_logged_in);
    assert_eq!(u.user_id, 0);
    assert_eq!(u.username, "");
    assert_eq!(u.name, "");
}

#[test]
fn default_optional_is_anonymous() {
    let u = OptionalUser::default();
    assert!(!u.is_logged_in);
    assert_eq!(u.username, "");
}

#[test]
fn required_maps_every_field() {
    let u = resolve_required(Some(record())).unwrap();
    assert_eq!(u.user_id, 42);
    assert_eq!(u.username, "alice");
    assert_eq!(u.name, "Alice Doe");
    assert_eq!(u.email, "alice@example.com");
    assert!(u.email_is_verified);
}

#[test]
fn optional_maps_shared_fields() {
    let u = resolve_optional(Some(record()));
    assert!(u.is_logged_in);
    assert_eq!(u.user_id, 42);
    assert_eq!(u.username, "alice");
    assert_eq!(u.name, "Alice Doe");
}

#[test]
fn both_shapes_agree_on_shared_fields() {
    let r = resolve_required(Some(record())).unwrap();
    let o = resolve_optional(Some(record()));
    assert_eq!(r.username, o.username);
    assert_eq!(r.name, o.name);
}

#[test]
fn empty_allowlist_denies_everyone() {
    let c = config(&[], false);
    assert!(!is_allowed(&user("a@example.com", true), &c));
    assert!(!is_allowed(&user("", false), &c));
    let c = config(&[], true);
    assert!(!is_allowed(&user("a@example.com", true), &c));
}

#[test]
fn suffix_match_without_verification() {
    let c = config(&["example.com"], false);
    assert!(is_allowed(&user("a@example.com", false), &c));
    assert!(is_allowed(&user("a@evilexample.com", false), &c));
    assert!(!is_allowed(&user("a@other.com", false), &c));
}

#[test]
fn blank_entry_matches_nothing() {
    let c = config(&[""], false);
    assert!(!is_allowed(&user("a@example.com", true), &c));
    assert!(!is_allowed(&user("", true), &c));
    let c = config(&["   ", "\t"], false);
    assert!(!is_allowed(&user("a@example.com", true), &c));
}

#[test]
fn verification_required() {
    let c = config(&["example.com"], true);
    assert!(!is_allowed(&user("a@example.com", false), &c));
    assert!(is_allowed(&user("a@example.com", true), &c));
    assert!(!is_allowed(&user("a@other.com", true), &c));
}

#[test]
fn later_entry_suffices() {
    let c = config(&["a.com", "b.com"], false);
    assert!(is_allowed(&user("x@b.com", false), &c));
    assert!(is_allowed(&user("x@a.com", false), &c));
    assert!(!is_allowed(&user("x@c.com", false), &c));
}

#[test]
fn entries_are_trimmed() {
    let c = config(&["  example.com "], false);
    assert!(is_allowed(&user("a@example.com", false), &c));
    let c = config(&["example.com "], false);
    assert!(!is_allowed(&user("a@example.com ", false), &c));
}

#[test]
fn settings_split_on_commas() {
    let c = PolicyConfig::from_settings(Some("a.com, b.com,,".to_string()), None);
    assert_eq!(c.allowed_domains, vec!["a.com", " b.com", "", ""]);
    assert!(!c.require_verification);
    assert!(is_allowed(&user("x@b.com", false), &c));
}

#[test]
fn settings_unset_allowlist_is_empty() {
    let c = PolicyConfig::from_settings(None, Some("true".to_string()));
    assert!(c.allowed_domains.is_empty());
    assert!(c.require_verification);
    assert!(!is_allowed(&user("a@example.com", true), &c));
}

#[test]
fn settings_empty_allowlist_denies() {
    let c = PolicyConfig::from_settings(Some(String::new()), None);
    assert_eq!(c.allowed_domains, vec![""]);
    assert!(!is_allowed(&user("a@example.com", true), &c));
}

#[test]
fn settings_verification_only_on_exact_true() {
    for v in ["TRUE", "True", " true", "1", "yes", ""] {
        let c = PolicyConfig::from_settings(None, Some(v.to_string()));
        assert!(!c.require_verification, "{v}");
    }
    let c = PolicyConfig::from_settings(None, None);
    assert!(!c.require_verification);
}

#[test]
fn settings_with_trailing_comma_still_gated() {
    let c = PolicyConfig::from_settings(Some("example.com,".to_string()), Some("true".to_string()));
    assert!(is_allowed(&user("a@example.com", true), &c));
    assert!(!is_allowed(&user("a@example.com", false), &c));
    assert!(!is_allowed(&user("a@other.org", true), &c));
}
