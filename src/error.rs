use vstd::prelude::*;
use vstd::string::*;
use crate::text::{contains, str_contains};

verus! {

/// The failures that the service reports.
///
/// `Database` carries the storage driver's description of what went wrong;
/// every other kind carries a message meant for the caller.
#[derive(Debug, PartialEq, Eq)]
pub enum ApiError {
    Database(String),
    NotFound(String),
    BadRequest(String),
    Unauthorized(String),
    Forbidden(String),
    Internal(String),
    Conflict(String),
}

/// What crosses the service boundary for a failure: a status code and a message.
#[derive(Debug, PartialEq, Eq)]
pub struct ErrorResponse {
    pub status: u16,
    pub message: String,
}

/// `r` is a not-found failure with message `m`.
pub open spec fn not_found_with<T>(r: Result<T, ApiError>, m: Seq<char>) -> bool {
    r matches Err(ApiError::NotFound(t)) && t@ == m
}

/// `r` is an internal failure.
pub open spec fn is_internal<T>(r: Result<T, ApiError>) -> bool {
    r matches Err(ApiError::Internal(_))
}

/// `r` is an internal failure with message `m`.
pub open spec fn internal_with<T>(r: Result<T, ApiError>, m: Seq<char>) -> bool {
    r matches Err(ApiError::Internal(t)) && t@ == m
}

/// `r` is a bad-request failure with message `m`.
pub open spec fn bad_request_with<T>(r: Result<T, ApiError>, m: Seq<char>) -> bool {
    r matches Err(ApiError::BadRequest(t)) && t@ == m
}

/// `r` is an unauthorized failure with message `m`.
pub open spec fn unauthorized_with<T>(r: Result<T, ApiError>, m: Seq<char>) -> bool {
    r matches Err(ApiError::Unauthorized(t)) && t@ == m
}

/// `r` is a conflict failure with message `m`.
pub open spec fn conflict_with<T>(r: Result<T, ApiError>, m: Seq<char>) -> bool {
    r matches Err(ApiError::Conflict(t)) && t@ == m
}

/// The field-specific message for a storage error that reports a violated
/// uniqueness constraint on the users' email or username, if it is one.
pub open spec fn unique_violation_message(text: Seq<char>) -> Option<Seq<char>> {
    if !contains(text, "duplicate key"@) {
        None
    } else if contains(text, "idx_users_email"@) || contains(text, "users_email_key"@) {
        Some("Email already in use"@)
    } else if contains(text, "idx_users_username"@) || contains(text, "users_username_key"@) {
        Some("Username already in use"@)
    } else {
        None
    }
}

/// Status code and message of the response for `e`.
pub open spec fn response_of(e: ApiError) -> (u16, Seq<char>) {
    match e {
        ApiError::Database(t) => match unique_violation_message(t@) {
            Some(m) => (409, m),
            None => (500, "Database error"@),
        },
        ApiError::NotFound(m) => (404, m@),
        ApiError::BadRequest(m) => (400, m@),
        ApiError::Unauthorized(m) => (401, m@),
        ApiError::Forbidden(m) => (403, m@),
        ApiError::Internal(_) => (500, "Internal server error"@),
        ApiError::Conflict(m) => (409, m@),
    }
}

/// The one-line description of `e`: its kind, then its detail.
pub open spec fn description_of(e: ApiError) -> Seq<char> {
    match e {
        ApiError::Database(m) => "Database error: "@ + m@,
        ApiError::NotFound(m) => "Not found: "@ + m@,
        ApiError::BadRequest(m) => "Bad request: "@ + m@,
        ApiError::Unauthorized(m) => "Unauthorized: "@ + m@,
        ApiError::Forbidden(m) => "Forbidden: "@ + m@,
        ApiError::Internal(m) => "Internal server error: "@ + m@,
        ApiError::Conflict(m) => "Conflict: "@ + m@,
    }
}

/// Recognises a uniqueness violation on users' email or username in a
/// storage error's text.
pub fn unique_violation(text: &str) -> (r: Option<String>)
    ensures
        r matches Some(m) ==> unique_violation_message(text@) == Some(m@),
        r is None ==> unique_violation_message(text@) is None,
{
    if !str_contains(text, "duplicate key") {
        None
    } else if str_contains(text, "idx_users_email") || str_contains(text, "users_email_key") {
        Some(String::from_str("Email already in use"))
    } else if str_contains(text, "idx_users_username") || str_contains(text, "users_username_key") {
        Some(String::from_str("Username already in use"))
    } else {
        None
    }
}

impl ApiError {
    /// Maps the failure to the response sent to the caller. Storage errors
    /// leave only a generic message, unless they report a violated email or
    /// username uniqueness constraint, which becomes a conflict naming that
    /// field; internal errors leave a generic message; other kinds pass
    /// their message through.
    pub fn to_response(&self) -> (r: ErrorResponse)
        ensures
            (r.status, r.message@) == response_of(*self),
    {
        match self {
            ApiError::Database(t) => match unique_violation(t.as_str()) {
                Some(m) => ErrorResponse { status: 409, message: m },
                None => ErrorResponse { status: 500, message: String::from_str("Database error") },
            },
            ApiError::NotFound(m) => ErrorResponse { status: 404, message: m.clone() },
            ApiError::BadRequest(m) => ErrorResponse { status: 400, message: m.clone() },
            ApiError::Unauthorized(m) => ErrorResponse { status: 401, message: m.clone() },
            ApiError::Forbidden(m) => ErrorResponse { status: 403, message: m.clone() },
            ApiError::Internal(_) => ErrorResponse {
                status: 500,
                message: String::from_str("Internal server error"),
            },
            ApiError::Conflict(m) => ErrorResponse { status: 409, message: m.clone() },
        }
    }

    /// The one-line description of the failure, such as `"Not found: ..."`.
    pub fn describe(&self) -> (r: String)
        ensures
            r@ == description_of(*self),
    {
        match self {
            ApiError::Database(m) => String::from_str("Database error: ").concat(m.as_str()),
            ApiError::NotFound(m) => String::from_str("Not found: ").concat(m.as_str()),
            ApiError::BadRequest(m) => String::from_str("Bad request: ").concat(m.as_str()),
            ApiError::Unauthorized(m) => String::from_str("Unauthorized: ").concat(m.as_str()),
            ApiError::Forbidden(m) => String::from_str("Forbidden: ").concat(m.as_str()),
            ApiError::Internal(m) => String::from_str("Internal server error: ").concat(m.as_str()),
            ApiError::Conflict(m) => String::from_str("Conflict: ").concat(m.as_str()),
        }
    }
}

} // verus!
