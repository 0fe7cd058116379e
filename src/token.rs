use vstd::prelude::*;
use vstd::string::*;
use vstd::utf8::encode_utf8;
use crate::error::{internal_with, unauthorized_with, ApiError};
use crate::ident::{hyphenated, id_text, parse_id, uuid_parsed};
use jsonwebtoken::{Algorithm, DecodingKey, EncodingKey, Header, Validation};
use serde_json::Value;

verus! {

/// How long an issued token stays valid: 24 hours, in seconds.
pub const TOKEN_LIFETIME_SECS: u64 = 86400;

/// The claims fields of a token: subject, issued-at and expiry (seconds
/// since the Unix epoch), each present only when it has the right type.
pub type ClaimsView = (Option<Seq<char>>, Option<u64>, Option<u64>);

/// The claims that `jsonwebtoken::decode` reads from `token` under
/// `DecodingKey::from_secret(secret)` and `Validation::new(Algorithm::HS256)`
/// with `validate_exp` switched off (so the clock plays no part); `None`
/// when it rejects the token.
pub uninterp spec fn hs256_claims(token: Seq<char>, secret: Seq<u8>) -> Option<ClaimsView>;

/// The view of claims fields read from a token.
pub open spec fn claims_view(c: Option<(Option<String>, Option<u64>, Option<u64>)>) -> Option<ClaimsView> {
    match c {
        Some((s, i, e)) => Some((
            match s {
                Some(t) => Some(t@),
                None => None,
            },
            i,
            e,
        )),
        None => None,
    }
}

/// Relies on `jsonwebtoken::encode` with an HS256 header and
/// `EncodingKey::from_secret`: an HMAC key matches the HS256 header, a JSON
/// object of claims always serialises and HMAC signing cannot fail, so a
/// token always comes back; it carries the claims `sub`, `iat` and `exp`,
/// and `jsonwebtoken::decode` with the same secret reads them back.
#[verifier::external_body]
fn sign_hs256(sub: &str, iat: u64, exp: u64, secret: &[u8]) -> (r: Option<String>)
    ensures
        r is Some,
        r matches Some(t) ==> hs256_claims(t@, secret@) == Some((Some(sub@), Some(iat), Some(exp))),
{
    let mut claims = serde_json::Map::new();
    claims.insert("sub".to_string(), Value::from(sub));
    claims.insert("iat".to_string(), Value::from(iat));
    claims.insert("exp".to_string(), Value::from(exp));
    let key = EncodingKey::from_secret(secret);
    jsonwebtoken::encode(&Header::new(Algorithm::HS256), &claims, &key).ok()
}

/// Relies on `jsonwebtoken::decode` with `DecodingKey::from_secret` and an
/// HS256 `Validation` whose expiry comparison is switched off; the claims
/// `sub`, `iat` and `exp` are picked from the decoded object.
#[verifier::external_body]
fn read_hs256(token: &str, secret: &[u8]) -> (r: Option<(Option<String>, Option<u64>, Option<u64>)>)
    ensures
        claims_view(r) == hs256_claims(token@, secret@),
{
    let mut validation = Validation::new(Algorithm::HS256);
    validation.validate_exp = false;
    let key = DecodingKey::from_secret(secret);
    let data = jsonwebtoken::decode::<serde_json::Map<String, Value>>(token, &key, &validation).ok()?;
    let c = data.claims;
    Some((
        c.get("sub").and_then(Value::as_str).map(String::from),
        c.get("iat").and_then(Value::as_u64),
        c.get("exp").and_then(Value::as_u64),
    ))
}

/// Relies on `chrono::Utc::now` and `DateTime::timestamp`: seconds since the
/// Unix epoch. Nothing is promised of the value.
#[verifier::external_body]
fn clock_seconds() -> (r: i64) {
    chrono::Utc::now().timestamp()
}

/// The current time in whole seconds since the Unix epoch, never negative.
pub fn now_seconds() -> (r: u64) {
    let t = clock_seconds();
    if t < 0 {
        0
    } else {
        t as u64
    }
}

/// Issues and verifies signed, time-boxed bearer tokens. The signing secret
/// is handed over at start-up and is never empty.
pub struct TokenService {
    secret: String,
}

/// What verifying `token` at time `now` yields: the subject, or the message
/// of the authentication failure.
pub open spec fn verify_outcome(token: Seq<char>, secret: Seq<u8>, now: u64) -> Result<u128, Seq<char>> {
    match hs256_claims(token, secret) {
        Some((Some(sub), Some(_iat), Some(exp))) => {
            if exp < now {
                Err("Invalid token"@)
            } else {
                match uuid_parsed(sub) {
                    Some(id) => Ok(id),
                    None => Err("Invalid user ID in token"@),
                }
            }
        },
        _ => Err("Invalid token"@),
    }
}

/// `token` was issued under `secret` for `subject` at time `at`, valid for
/// the token lifetime.
pub open spec fn issued_for(token: Seq<char>, secret: Seq<u8>, subject: u128, at: u64) -> bool {
    &&& hs256_claims(token, secret) == Some(
        (Some(hyphenated(subject)), Some(at), Some((at + TOKEN_LIFETIME_SECS) as u64)),
    )
    &&& uuid_parsed(hyphenated(subject)) == Some(subject)
}

impl TokenService {
    /// The bytes of the signing secret.
    pub closed spec fn key(&self) -> Seq<u8> {
        encode_utf8(self.secret@)
    }

    /// A token service signing with `secret`; a missing (empty) secret is a
    /// configuration fault, never replaced by a default.
    pub fn new(secret: String) -> (r: Result<TokenService, ApiError>)
        ensures
            secret@.len() == 0 <==> r is Err,
            secret@.len() == 0 ==> internal_with(r, "Server configuration error"@),
            r matches Ok(s) ==> s.key() == encode_utf8(secret@),
    {
        if secret.as_str().is_empty() {
            return Err(ApiError::Internal(String::from_str("Server configuration error")));
        }
        Ok(TokenService { secret })
    }

    /// Issues a token for `subject` at time `now`, expiring one lifetime later.
    pub fn issue_at(&self, subject: u128, now: u64) -> (r: Result<String, ApiError>)
        requires
            now <= u64::MAX - TOKEN_LIFETIME_SECS,
        ensures
            r is Ok,
            r matches Ok(t) ==> issued_for(t@, self.key(), subject, now),
    {
        let sub = id_text(subject);
        let exp = now + TOKEN_LIFETIME_SECS;
        match sign_hs256(sub.as_str(), now, exp, self.secret.as_str().as_bytes()) {
            Some(t) => Ok(t),
            None => Err(ApiError::Internal(String::from_str("Token generation error"))),
        }
    }

    /// Verifies `token` at time `now`: the signature must hold, the claims
    /// must be complete, the expiry must not have passed and the subject
    /// must be an identifier. Every failure is an authentication failure.
    pub fn verify_at(&self, token: &str, now: u64) -> (r: Result<u128, ApiError>)
        ensures
            verify_outcome(token@, self.key(), now) matches Ok(id) ==> r == Ok::<u128, ApiError>(id),
            verify_outcome(token@, self.key(), now) matches Err(m) ==> unauthorized_with(r, m),
    {
        match read_hs256(token, self.secret.as_str().as_bytes()) {
            Some((Some(sub), Some(_iat), Some(exp))) => {
                if exp < now {
                    Err(ApiError::Unauthorized(String::from_str("Invalid token")))
                } else {
                    match parse_id(sub.as_str()) {
                        Some(id) => Ok(id),
                        None => Err(ApiError::Unauthorized(String::from_str("Invalid user ID in token"))),
                    }
                }
            },
            _ => Err(ApiError::Unauthorized(String::from_str("Invalid token"))),
        }
    }
}

/// Issues a token for `user_id`, valid for 24 hours from now.
pub fn generate_token(service: &TokenService, user_id: u128) -> (r: Result<String, ApiError>)
    ensures
        r matches Ok(t) ==> exists|at: u64| issued_for(t@, service.key(), user_id, at),
        r is Err ==> internal_with(r, "Clock out of range"@),
{
    let now = now_seconds();
    if now > u64::MAX - TOKEN_LIFETIME_SECS {
        return Err(ApiError::Internal(String::from_str("Clock out of range")));
    }
    service.issue_at(user_id, now)
}

/// Verifies `token` against the current time and yields its subject.
pub fn verify_token(service: &TokenService, token: &str) -> (r: Result<u128, ApiError>)
    ensures
        r matches Err(e) ==> e is Unauthorized,
        r matches Ok(id) ==> exists|now: u64| verify_outcome(token@, service.key(), now) == Ok::<u128, Seq<char>>(id),
{
    let now = now_seconds();
    service.verify_at(token, now)
}

/// A freshly issued token verifies to its subject until it expires.
pub proof fn lemma_issued_token_verifies(
    token: Seq<char>,
    secret: Seq<u8>,
    subject: u128,
    at: u64,
    now: u64,
)
    requires
        at <= u64::MAX - TOKEN_LIFETIME_SECS,
        issued_for(token, secret, subject, at),
        now <= at + TOKEN_LIFETIME_SECS,
    ensures
        verify_outcome(token, secret, now) == Ok::<u128, Seq<char>>(subject),
{
}

/// A token whose expiry has passed is rejected, whatever its signature.
pub proof fn lemma_expired_token_rejected(token: Seq<char>, secret: Seq<u8>, now: u64)
    requires
        hs256_claims(token, secret) matches Some((_, _, Some(exp))) && exp < now,
    ensures
        verify_outcome(token, secret, now) is Err,
{
}

} // verus!
