use tunno_sync::auth::{check_bearer, generate_token};

#[test]
fn missing_header_is_rejected() {
    assert!(!check_bearer("secret", &None));
}

#[test]
fn wrong_scheme_is_rejected() {
    assert!(!check_bearer("secret", &Some("Token secret".to_string())));
    assert!(!check_bearer("secret", &Some("bearer secret".to_string())));
    assert!(!check_bearer("secret", &Some("Bearersecret".to_string())));
}

#[test]
fn wrong_token_is_rejected() {
    assert!(!check_bearer("secret", &Some("Bearer wrong".to_string())));
    assert!(!check_bearer("secret", &Some("Bearer secret ".to_string())));
    assert!(!check_bearer("secret", &Some("Bearer  secret".to_string())));
}

#[test]
fn short_header_is_rejected() {
    assert!(!check_bearer("secret", &Some("Beare".to_string())));
    assert!(!check_bearer("secret", &Some("".to_string())));
}

#[test]
fn exact_issued_token_is_accepted() {
    let token = generate_token();
    let header = format!("Bearer {}", token);
    assert!(check_bearer(&token, &Some(header)));
}

#[test]
fn empty_token_accepts_bare_scheme_only() {
    assert!(check_bearer("", &Some("Bearer ".to_string())));
    assert!(!check_bearer("", &Some("Bearer x".to_string())));
}

#[test]
fn generated_tokens_are_long_and_distinct() {
    let a = generate_token();
    let b = generate_token();
    assert_eq!(a.len(), 36);
    assert_ne!(a, b);
}
