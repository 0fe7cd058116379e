use vstd::prelude::*;
use vstd::string::*;
use crate::error::{description_of, ApiError, ErrorResponse};
use crate::text::{starts_with, str_starts_with};
use crate::token::{verify_outcome, TokenService};

verus! {

/// Requests whose path starts with this prefix need a bearer token.
pub const PROTECTED_PREFIX: &'static str = "/api/products";

/// What the access gate decides for one request.
#[derive(Debug, PartialEq, Eq)]
pub enum AuthDecision {
    /// The path is not protected: the request goes on untouched.
    Pass,
    /// The token is valid: the request goes on with this subject attached.
    Proceed(u128),
    /// The request ends here with this response.
    Reject(ErrorResponse),
}

/// The response that ends a request refused with message `m`.
pub open spec fn refused_with(d: AuthDecision, m: Seq<char>) -> bool {
    d matches AuthDecision::Reject(resp) && resp.status == 401 && resp.message@ == m
}

/// Holds when `d` is the right answer for a request to `path` with the
/// given authorization value (callers pass an empty text for a value that
/// is not visible ASCII), judged against `secret` at time `now`.
pub open spec fn gate_decides(
    path: Seq<char>,
    authorization: Option<Seq<char>>,
    secret: Seq<u8>,
    now: u64,
    d: AuthDecision,
) -> bool {
    if !starts_with(path, PROTECTED_PREFIX@) {
        d is Pass
    } else {
        match authorization {
            None => refused_with(d, "Missing authorization header"@),
            Some(h) => if !starts_with(h, "Bearer "@) {
                refused_with(d, "Invalid authorization format"@)
            } else {
                match verify_outcome(h.subrange(7, h.len() as int), secret, now) {
                    Ok(id) => d == AuthDecision::Proceed(id),
                    Err(m) => refused_with(d, "Unauthorized: "@ + m),
                }
            },
        }
    }
}

/// The access gate: requests outside the protected prefix pass; inside it,
/// a request needs an `Authorization: Bearer <token>` header whose token
/// verifies at time `now`, and is refused with status 401 otherwise. There
/// are no retries: a refusal is final for the request.
pub fn authorize(
    tokens: &TokenService,
    path: &str,
    authorization: Option<&str>,
    now: u64,
) -> (r: AuthDecision)
    ensures
        gate_decides(
            path@,
            match authorization {
                Some(h) => Some(h@),
                None => None,
            },
            tokens.key(),
            now,
            r,
        ),
{
    if !str_starts_with(path, PROTECTED_PREFIX) {
        return AuthDecision::Pass;
    }
    let h = match authorization {
        Some(h) => h,
        None => {
            let e = ApiError::Unauthorized(String::from_str("Missing authorization header"));
            return AuthDecision::Reject(e.to_response());
        },
    };
    if !str_starts_with(h, "Bearer ") {
        let e = ApiError::Unauthorized(String::from_str("Invalid authorization format"));
        return AuthDecision::Reject(e.to_response());
    }
    proof {
        reveal_strlit("Bearer ");
    }
    let token = h.substring_char(7, h.unicode_len());
    match tokens.verify_at(token, now) {
        Ok(id) => AuthDecision::Proceed(id),
        Err(e) => {
            let refusal = ApiError::Unauthorized(e.describe());
            proof {
                assert(description_of(e) =~= "Unauthorized: "@ + e->Unauthorized_0@);
            }
            AuthDecision::Reject(refusal.to_response())
        },
    }
}

} // verus!
