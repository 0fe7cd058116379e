use learning_rust::error::ApiError;
use learning_rust::ident::parse_id;
use learning_rust::token::{generate_token, verify_token, TokenService, TOKEN_LIFETIME_SECS};

#[test]
fn missing_secret_is_a_configuration_fault() {
    assert_eq!(
        TokenService::new(String::new()).err(),
        Some(ApiError::Internal("Server configuration error".to_string()))
    );
}

#[test]
fn issued_token_verifies_to_its_subject() {
    let s = TokenService::new("s3cret".to_string()).unwrap();
    let t = s.issue_at(0xdead_beef, 1_700_000_000).unwrap();
    assert_eq!(s.verify_at(&t, 1_700_000_000), Ok(0xdead_beef));
    assert_eq!(s.verify_at(&t, 1_700_000_000 + TOKEN_LIFETIME_SECS), Ok(0xdead_beef));
}

#[test]
fn expired_token_is_rejected() {
    let s = TokenService::new("s3cret".to_string()).unwrap();
    let t = s.issue_at(7, 1_000).unwrap();
    assert_eq!(
        s.verify_at(&t, 1_000 + TOKEN_LIFETIME_SECS + 1),
        Err(ApiError::Unauthorized("Invalid token".to_string()))
    );
}

#[test]
fn token_from_another_secret_is_rejected() {
    let a = TokenService::new("one".to_string()).unwrap();
    let b = TokenService::new("two".to_string()).unwrap();
    let t = a.issue_at(7, 1_000).unwrap();
    assert_eq!(b.verify_at(&t, 1_000), Err(ApiError::Unauthorized("Invalid token".to_string())));
    assert_eq!(a.verify_at("not.a.token", 1_000), Err(ApiError::Unauthorized("Invalid token".to_string())));
}

#[test]
fn tokens_issued_now_verify_now() {
    let s = TokenService::new("s3cret".to_string()).unwrap();
    let t = generate_token(&s, 99).unwrap();
    assert_eq!(verify_token(&s, &t), Ok(99));
}

#[test]
fn identifiers_read_from_text() {
    assert_eq!(
        parse_id("a1a2a3a4-b1b2-c1c2-d1d2-d3d4d5d6d7d8"),
        Some(0xa1a2a3a4b1b2c1c2d1d2d3d4d5d6d7d8)
    );
    assert_eq!(parse_id("not-an-id"), None);
}
