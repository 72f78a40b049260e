//! Argon2 password (and 2FA code) hashing.
use argon2::password_hash::{PasswordHash, PasswordHasher, PasswordVerifier, SaltString};
use argon2::Argon2;
use rand_core::OsRng;
use vstd::prelude::*;

verus! {

/// Whether `argon2::password_hash::PasswordHash::new` accepts `hash` as a PHC string.
pub uninterp spec fn phc_hash_parses(hash: Seq<char>) -> bool;

/// Whether `Argon2::default().verify_password` succeeds for `plain` against
/// the parsed PHC string `hash`, i.e. recomputing with the salt and
/// parameters stored in `hash` yields the digest stored there.
pub uninterp spec fn argon2_verifies(plain: Seq<char>, hash: Seq<char>) -> bool;

/// Hashes `plain` with Argon2 (default parameters) under a fresh random salt
/// from `OsRng`, giving the PHC string.
///
/// Trusted: calls `SaltString::generate` and `Argon2::hash_password`. The
/// contract claims only what the argon2 crate documents of its output: the
/// PHC string parses (so it starts with `$`, as `PasswordHash::new` requires)
/// and `verify_password` accepts `plain` against it; and that it succeeds for
/// any password of at most `0xFFFF_FFFF` bytes (argon2 refuses only longer
/// ones with default parameters and a generated salt), which four bytes per
/// character bound. The salt, hence the string itself, is random; the error
/// text is not stated.
#[verifier::external_body]
pub fn hash_password(plain: &str) -> (r: Result<String, String>)
    ensures
        plain@.len() <= 0x3FFF_FFFF ==> r is Ok,
        r matches Ok(h) ==> phc_hash_parses(h@) && argon2_verifies(plain@, h@),
        r matches Ok(h) ==> h@.len() > 0 && h@[0] == '$',
{
    let salt = SaltString::generate(&mut OsRng);
    match Argon2::default().hash_password(plain.as_bytes(), &salt) {
        Ok(hash) => Ok(hash.to_string()),
        Err(e) => Err(format!("failed to hash password: {e}")),
    }
}

/// Checks `plain` against a stored PHC string.
///
/// Trusted: calls `PasswordHash::new` and `Argon2::verify_password`. The
/// contract claims that parsing fails exactly when `phc_hash_parses` does and
/// that the answer is `argon2_verifies`; the error text is not stated.
#[verifier::external_body]
pub fn verify_password(plain: &str, hash: &str) -> (r: Result<bool, String>)
    ensures
        r is Ok <==> phc_hash_parses(hash@),
        r matches Ok(b) ==> b == argon2_verifies(plain@, hash@),
{
    let parsed = match PasswordHash::new(hash) {
        Ok(parsed) => parsed,
        Err(e) => return Err(format!("invalid stored password hash: {e}")),
    };
    Ok(Argon2::default().verify_password(plain.as_bytes(), &parsed).is_ok())
}

} // verus!
