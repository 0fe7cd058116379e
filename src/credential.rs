use vstd::prelude::*;
use vstd::string::*;
use vstd::utf8::encode_utf8;
use crate::error::ApiError;
use crate::text::starts_with;
use argon2::password_hash::rand_core::OsRng;
use argon2::password_hash::{PasswordHash, PasswordHasher, PasswordVerifier, SaltString};
use argon2::Argon2;

verus! {

/// What Argon2 says of `password` against the stored `hash`: `None` when
/// `hash` is not a PHC string, else whether the password matches it.
pub uninterp spec fn argon2_verdict(password: Seq<char>, hash: Seq<char>) -> Option<bool>;

/// The B64 digest that Argon2id with default parameters computes for
/// `password` under the B64 salt `salt`.
pub uninterp spec fn argon2_digest(password: Seq<char>, salt: Seq<char>) -> Seq<char>;

/// The start of every PHC string this library stores: the algorithm, its
/// version and the default parameters.
pub const ARGON2_PREFIX: &'static str = "$argon2id$v=19$m=19456,t=2,p=1$";

/// A character of the B64 alphabet (standard Base64 without padding).
pub open spec fn is_b64_char(c: char) -> bool {
    ('A' <= c && c <= 'Z') || ('a' <= c && c <= 'z') || ('0' <= c && c <= '9') || c == '+' || c == '/'
}

/// A salt as the generator makes it: 22 B64 characters (16 random bytes).
pub open spec fn is_salt_text(s: Seq<char>) -> bool {
    &&& s.len() == 22
    &&& forall|i: int| 0 <= i < s.len() ==> is_b64_char(#[trigger] s[i])
}

/// The PHC string for `password` under `salt`: algorithm, version,
/// parameters, salt and digest, separated by `$`.
pub open spec fn phc_text(password: Seq<char>, salt: Seq<char>) -> Seq<char> {
    ARGON2_PREFIX@ + salt + "$"@ + argon2_digest(password, salt)
}

/// `hash` is a stored credential for `password`: the PHC string made of it
/// under some generated salt, against which the password verifies.
pub open spec fn is_credential_for(password: Seq<char>, hash: Seq<char>) -> bool {
    &&& exists|s: Seq<char>| is_salt_text(s) && hash == phc_text(password, s)
    &&& argon2_verdict(password, hash) == Some(true)
}

/// A random salt, drawn once per hash. Only the generator makes one.
pub struct Salt {
    text: String,
}

impl View for Salt {
    type V = Seq<char>;

    closed spec fn view(&self) -> Seq<char> {
        self.text@
    }
}

/// Relies on `SaltString::generate` drawing 16 bytes from the operating
/// system and encoding them as B64 without padding.
#[verifier::external_body]
pub fn fresh_salt() -> (r: Salt)
    ensures
        is_salt_text(r@),
{
    Salt { text: SaltString::generate(&mut OsRng).as_str().to_string() }
}

/// Relies on `SaltString::from_b64` and `argon2::Argon2::default().hash_password`:
/// for a generated salt it fails only on a password longer than `u32::MAX`
/// bytes, and its PHC string (`PasswordHash`'s `Display`) embeds the
/// algorithm, version, parameters and salt, so verifying the same password
/// against it succeeds.
#[verifier::external_body]
fn argon2_hash(password: &str, salt: &Salt) -> (r: Option<String>)
    ensures
        encode_utf8(password@).len() <= 0xFFFF_FFFF ==> r is Some,
        r matches Some(h) ==> h@ == ARGON2_PREFIX@ + salt@ + "$"@ + argon2_digest(password@, salt@),
        r matches Some(h) ==> argon2_verdict(password@, h@) == Some(true),
{
    let salt = SaltString::from_b64(salt.text.as_str()).ok()?;
    Argon2::default().hash_password(password.as_bytes(), &salt).ok().map(|h| h.to_string())
}

/// Relies on `argon2::PasswordHash::new`, which reads a PHC string, and on
/// `PasswordVerifier::verify_password` of `argon2::Argon2::default()`, which
/// recomputes the hash under the embedded parameters and compares.
#[verifier::external_body]
fn argon2_check(password: &str, hash: &str) -> (r: Option<bool>)
    ensures
        r == argon2_verdict(password@, hash@),
{
    PasswordHash::new(hash).ok().map(
        |parsed| Argon2::default().verify_password(password.as_bytes(), &parsed).is_ok(),
    )
}

/// Hashes a password under the given salt. Fails only on a password longer
/// than `u32::MAX` bytes.
pub fn hash_password_with_salt(password: &str, salt: &Salt) -> (r: Result<String, ApiError>)
    ensures
        encode_utf8(password@).len() <= 0xFFFF_FFFF ==> r is Ok,
        r matches Ok(h) ==> h@ == phc_text(password@, salt@) && argon2_verdict(password@, h@)
            == Some(true),
        r matches Err(e) ==> e is Internal,
{
    match argon2_hash(password, salt) {
        Some(h) => Ok(h),
        None => Err(ApiError::Internal(String::from_str("Error hashing password"))),
    }
}

/// Hashes a password under a fresh random salt into a PHC string that
/// carries everything verification needs.
pub fn hash_password(password: &str) -> (r: Result<String, ApiError>)
    ensures
        encode_utf8(password@).len() <= 0xFFFF_FFFF ==> r is Ok,
        r matches Ok(h) ==> is_credential_for(password@, h@),
        r matches Ok(h) ==> (!starts_with(password@, ARGON2_PREFIX@) ==> h@ != password@),
        r matches Err(e) ==> e is Internal,
{
    let salt = fresh_salt();
    let r = hash_password_with_salt(password, &salt);
    proof {
        if r is Ok && !starts_with(password@, ARGON2_PREFIX@) {
            lemma_credential_is_not_plaintext(password@, r->Ok_0@);
        }
    }
    r
}

/// Checks a password against a stored hash. A hash that cannot be read is
/// an internal failure, never a crash.
pub fn verify_password(password: &str, hash: &str) -> (r: Result<bool, ApiError>)
    ensures
        argon2_verdict(password@, hash@) matches Some(b) ==> r == Ok::<bool, ApiError>(b),
        argon2_verdict(password@, hash@) is None ==> r matches Err(ApiError::Internal(_)),
{
    match argon2_check(password, hash) {
        Some(b) => Ok(b),
        None => Err(ApiError::Internal(String::from_str("Error parsing password"))),
    }
}

/// Two hashes of one password under different salts differ: the salt is
/// part of the PHC string.
pub proof fn lemma_distinct_salts_distinct_hashes(password: Seq<char>, s1: Seq<char>, s2: Seq<char>)
    requires
        is_salt_text(s1),
        is_salt_text(s2),
        s1 != s2,
    ensures
        phc_text(password, s1) != phc_text(password, s2),
{
    reveal_strlit("$argon2id$v=19$m=19456,t=2,p=1$");
    let k = ARGON2_PREFIX@.len() as int;
    if phc_text(password, s1) == phc_text(password, s2) {
        assert(phc_text(password, s1).subrange(k, k + 22) =~= s1);
        assert(phc_text(password, s2).subrange(k, k + 22) =~= s2);
    }
}

/// A stored credential is never the plaintext of a password that does not
/// itself begin like a PHC string.
pub proof fn lemma_credential_is_not_plaintext(password: Seq<char>, hash: Seq<char>)
    requires
        is_credential_for(password, hash),
        !starts_with(password, ARGON2_PREFIX@),
    ensures
        hash != password,
{
    reveal_strlit("$argon2id$v=19$m=19456,t=2,p=1$");
    let s = choose|s: Seq<char>| is_salt_text(s) && hash == phc_text(password, s);
    let k = ARGON2_PREFIX@.len() as int;
    assert(hash.subrange(0, k) =~= ARGON2_PREFIX@);
}

} // verus!
