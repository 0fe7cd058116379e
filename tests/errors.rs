use learning_rust::error::ApiError;
use learning_rust::text::{str_contains, str_starts_with};

fn response(e: ApiError) -> (u16, String) {
    let r = e.to_response();
    (r.status, r.message)
}

#[test]
fn kinds_map_to_status_codes() {
    assert_eq!(response(ApiError::NotFound("gone".to_string())), (404, "gone".to_string()));
    assert_eq!(response(ApiError::BadRequest("bad".to_string())), (400, "bad".to_string()));
    assert_eq!(response(ApiError::Unauthorized("who".to_string())), (401, "who".to_string()));
    assert_eq!(response(ApiError::Forbidden("no".to_string())), (403, "no".to_string()));
    assert_eq!(response(ApiError::Conflict("twice".to_string())), (409, "twice".to_string()));
}

#[test]
fn internal_errors_hide_their_detail() {
    assert_eq!(
        response(ApiError::Internal("secret stack".to_string())),
        (500, "Internal server error".to_string())
    );
}

#[test]
fn storage_errors_hide_their_detail() {
    assert_eq!(
        response(ApiError::Database("connection reset".to_string())),
        (500, "Database error".to_string())
    );
}

#[test]
fn duplicate_email_becomes_conflict_naming_email() {
    let text = "error returned from database: duplicate key value violates unique constraint \"users_email_key\"";
    assert_eq!(
        response(ApiError::Database(text.to_string())),
        (409, "Email already in use".to_string())
    );
    let text = "duplicate key value violates unique constraint \"idx_users_email\"";
    assert_eq!(
        response(ApiError::Database(text.to_string())),
        (409, "Email already in use".to_string())
    );
}

#[test]
fn duplicate_username_becomes_conflict_naming_username() {
    let text = "duplicate key value violates unique constraint \"users_username_key\"";
    assert_eq!(
        response(ApiError::Database(text.to_string())),
        (409, "Username already in use".to_string())
    );
}

#[test]
fn other_duplicates_stay_generic() {
    let text = "duplicate key value violates unique constraint \"products_pkey\"";
    assert_eq!(
        response(ApiError::Database(text.to_string())),
        (500, "Database error".to_string())
    );
}

#[test]
fn descriptions_name_the_kind() {
    assert_eq!(ApiError::Unauthorized("Invalid token".to_string()).describe(), "Unauthorized: Invalid token");
    assert_eq!(ApiError::NotFound("x".to_string()).describe(), "Not found: x");
    assert_eq!(ApiError::Database("x".to_string()).describe(), "Database error: x");
    assert_eq!(ApiError::Internal("x".to_string()).describe(), "Internal server error: x");
}

#[test]
fn substring_search_finds_runs() {
    assert!(str_contains("abcabd", "abd"));
    assert!(!str_contains("abcab", "abd"));
    assert!(str_contains("abc", ""));
    assert!(!str_contains("", "a"));
    assert!(str_starts_with("/api/products/1", "/api/products"));
    assert!(!str_starts_with("/api/prod", "/api/products"));
}
