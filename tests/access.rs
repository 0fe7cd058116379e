use learning_rust::auth::{authorize, AuthDecision};
use learning_rust::error::ErrorResponse;
use learning_rust::token::TokenService;

fn refused(m: &str) -> AuthDecision {
    AuthDecision::Reject(ErrorResponse { status: 401, message: m.to_string() })
}

#[test]
fn unprotected_paths_pass() {
    let s = TokenService::new("k".to_string()).unwrap();
    assert_eq!(authorize(&s, "/api/users", None, 0), AuthDecision::Pass);
}

#[test]
fn protected_paths_need_a_bearer_token() {
    let s = TokenService::new("k".to_string()).unwrap();
    assert_eq!(authorize(&s, "/api/products", None, 0), refused("Missing authorization header"));
    assert_eq!(authorize(&s, "/api/products/1", Some("Basic abc"), 0), refused("Invalid authorization format"));
    assert_eq!(authorize(&s, "/api/products", Some(""), 0), refused("Invalid authorization format"));
    assert_eq!(
        authorize(&s, "/api/products", Some("Bearer junk"), 0),
        refused("Unauthorized: Invalid token")
    );
}

#[test]
fn valid_token_attaches_the_subject() {
    let s = TokenService::new("k".to_string()).unwrap();
    let t = s.issue_at(12, 500).unwrap();
    let header = format!("Bearer {}", t);
    assert_eq!(authorize(&s, "/api/products", Some(&header), 600), AuthDecision::Proceed(12));
}
