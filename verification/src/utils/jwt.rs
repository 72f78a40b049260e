//! Access tokens: their claims, HS256 signing and checking with
//! `jsonwebtoken`.
use jsonwebtoken::{DecodingKey, EncodingKey, Header, Validation};
use serde_json::{from_value, Value};
use vstd::prelude::*;

use crate::models::object_id::ObjectId;
use crate::models::session::JwtClaims;
use crate::models::user::{role_name, UserRole};
use crate::utils::clock::{read_utc_clock, utc_clock_reading};
use crate::utils::constants::ACCESS_TOKEN_TTL_SECONDS;

verus! {

/// The claims of a token issued at Unix second `now` for the given user: it
/// names the user, carries the role name, and expires 24 hours later.
pub open spec fn claims_match(
    c: JwtClaims,
    user_id: ObjectId,
    email: Seq<char>,
    role: UserRole,
    now: int,
) -> bool {
    &&& c.sub@ == user_id.hex()
    &&& c.email@ == email
    &&& c.role@ == role_name(role)
    &&& c.iat == now as usize
    &&& c.exp == (now + ACCESS_TOKEN_TTL_SECONDS) as usize
}

/// Claims of a token issued for the given user at some Unix second since
/// the epoch (within chrono's range).
pub open spec fn issued_for(c: JwtClaims, user_id: ObjectId, email: Seq<char>, role: UserRole) -> bool {
    exists|now: int| 0 <= now < 10_000_000_000_000 && #[trigger] claims_match(c, user_id, email, role, now)
}

/// The claims of a token issued at Unix second `now`.
pub fn access_token_claims_at(user_id: &ObjectId, email: &str, role: &UserRole, now: i64) -> (c:
    JwtClaims)
    requires
        now + ACCESS_TOKEN_TTL_SECONDS <= i64::MAX,
    ensures
        claims_match(c, *user_id, email@, *role, now as int),
        c.exp == (c.iat + ACCESS_TOKEN_TTL_SECONDS) as usize,
{
    let exp = now + ACCESS_TOKEN_TTL_SECONDS;
    assert(((now + 86400) as usize) == (((now as usize) + 86400) as usize)) by (bit_vector);
    JwtClaims {
        sub: user_id.to_hex(),
        email: email.to_string(),
        role: role.as_str().to_string(),
        iat: now as usize,
        exp: exp as usize,
    }
}

/// The claims of a token issued now (`chrono::Utc::now()`), valid for 24 hours.
pub fn access_token_claims(user_id: &ObjectId, email: &str, role: &UserRole) -> (c: JwtClaims)
    ensures
        issued_for(c, *user_id, email@, *role),
        c.exp == (c.iat + ACCESS_TOKEN_TTL_SECONDS) as usize,
        exists|reading: (i64, u32, String)|
            #[trigger] utc_clock_reading(reading) && claims_match(c, *user_id, email@, *role, reading.0 as int),
{
    let reading = read_utc_clock();
    let ghost clock = reading;
    let (now, _, _) = reading;
    let c = access_token_claims_at(user_id, email, role, now);
    assert(utc_clock_reading(clock) && claims_match(c, *user_id, email@, *role, clock.0 as int));
    c
}

/// The HS256 JSON Web Token that `jsonwebtoken::encode` writes, under the
/// default header and `secret`, for the claims object
/// `{"sub", "email", "role", "exp", "iat"}` in that order.
pub uninterp spec fn hs256_token(
    sub: Seq<char>,
    email: Seq<char>,
    role: Seq<char>,
    exp: usize,
    iat: usize,
    secret: Seq<char>,
) -> Seq<char>;

/// What `jsonwebtoken::decode` with the default validation reads from
/// `token` under `secret` when the expiry check is left aside: the claims
/// `(sub, email, role, exp, iat)` when the token is three dot-separated
/// parts, its header names HS256, its signature verifies under `secret`, and
/// its payload is a JSON object that passes the other default checks (an
/// `exp` is present, no audience) in which `sub`, `email` and `role` are
/// strings and `exp` and `iat` non-negative integers that fit a `usize`;
/// none otherwise. It depends on the token and the secret alone.
pub uninterp spec fn hs256_claims(token: Seq<char>, secret: Seq<char>) -> Option<
    (Seq<char>, Seq<char>, Seq<char>, usize, usize),
>;

/// The claims as the tuple that `hs256_claims` reads back.
pub open spec fn claims_tuple(c: JwtClaims) -> (Seq<char>, Seq<char>, Seq<char>, usize, usize) {
    (c.sub@, c.email@, c.role@, c.exp, c.iat)
}

/// The token of `claims` signed with `secret`.
pub open spec fn signed(claims: JwtClaims, secret: Seq<char>) -> Seq<char> {
    hs256_token(claims.sub@, claims.email@, claims.role@, claims.exp, claims.iat, secret)
}

/// A token that verifies under `secret` and whose `exp` is the largest
/// 64-bit value, so that no clock reading can make it expired.
pub open spec fn never_expires(token: Seq<char>, secret: Seq<char>) -> bool {
    hs256_claims(token, secret) matches Some(t) && t.3 == 0xFFFF_FFFF_FFFF_FFFF
}

/// What checking `token` under `secret` gave (`decoded`, none when refused)
/// agrees with the token: claims read back are those the token carries under
/// that secret, and a token that cannot expire is not refused.
pub open spec fn checked_as(token: Seq<char>, secret: Seq<char>, decoded: Option<JwtClaims>) -> bool {
    &&& decoded matches Some(c) ==> hs256_claims(token, secret) == Some(claims_tuple(c))
    &&& never_expires(token, secret) ==> decoded is Some
}

/// Signs `claims` as an HS256 token.
///
/// Trusted: calls `jsonwebtoken::encode` with the default header (HS256) on a
/// JSON object of the five claims in the order `sub`, `email`, `role`, `exp`,
/// `iat` (`serde_json::Map` keeps insertion order here: bson enables its
/// `preserve_order` feature). The contract claims that it succeeds (the HMAC
/// key matches the algorithm, and serialising strings and numbers cannot
/// fail), that the token depends on the claims and the secret alone, and
/// that decoding it under the same secret reads the same claims back.
#[verifier::external_body]
fn sign_claims(claims: &JwtClaims, jwt_secret: &str) -> (r: Result<String, String>)
    ensures
        r is Ok,
        r matches Ok(t) ==> t@ == hs256_token(
            claims.sub@,
            claims.email@,
            claims.role@,
            claims.exp,
            claims.iat,
            jwt_secret@,
        ),
        r matches Ok(t) ==> hs256_claims(t@, jwt_secret@) == Some(
            (claims.sub@, claims.email@, claims.role@, claims.exp, claims.iat),
        ),
{
    let mut body: serde_json::Map<String, Value> = serde_json::Map::new();
    body.insert("sub".to_string(), Value::from(claims.sub.as_str()));
    body.insert("email".to_string(), Value::from(claims.email.as_str()));
    body.insert("role".to_string(), Value::from(claims.role.as_str()));
    body.insert("exp".to_string(), Value::from(claims.exp));
    body.insert("iat".to_string(), Value::from(claims.iat));
    let key = EncodingKey::from_secret(jwt_secret.as_bytes());
    jsonwebtoken::encode(&Header::default(), &body, &key).map_err(|e| format!("failed to encode jwt: {e}"))
}

/// Checks an HS256 token's signature and reads its claims, leaving the
/// expiry to the caller.
///
/// Trusted: calls `jsonwebtoken::decode` with the default validation except
/// for the expiry check (`validate_exp` off), then reads the five claims. The
/// contract claims that it succeeds exactly when `hs256_claims` of the token
/// and secret is some, and then reads those claims. The error text is not
/// stated.
#[verifier::external_body]
fn decode_claims(token: &str, jwt_secret: &str) -> (r: Result<JwtClaims, String>)
    ensures
        r matches Ok(c) ==> hs256_claims(token@, jwt_secret@) == Some(
            (c.sub@, c.email@, c.role@, c.exp, c.iat),
        ),
        (hs256_claims(token@, jwt_secret@) matches Some(t) && t.3 == 0xFFFF_FFFF_FFFF_FFFF) ==> r is Ok,
        hs256_claims(token@, jwt_secret@) is Some ==> r is Ok,
{
    let mut checks = Validation::default();
    checks.validate_exp = false;
    let key = &DecodingKey::from_secret(jwt_secret.as_bytes());
    let mut c = jsonwebtoken::decode::<serde_json::Map<String, Value>>(token, key, &checks)
        .map_err(|e| format!("failed to decode jwt: {e}"))?.claims;
    let mut take = |k: &str| c.remove(k).unwrap_or(Value::Null);
    let mut read = || -> Result<JwtClaims, serde_json::Error> { Ok(JwtClaims {
        sub: from_value(take("sub"))?,
        email: from_value(take("email"))?,
        role: from_value(take("role"))?,
        exp: from_value(take("exp"))?,
        iat: from_value(take("iat"))?,
    }) };
    read().map_err(|e| format!("failed to decode jwt: {e}"))
}

/// Issues a signed access token for the user, issued now and valid for
/// 24 hours; checking it under the same secret reads its claims back.
pub fn issue_access_token(user_id: &ObjectId, email: &str, role: &UserRole, jwt_secret: &str) -> (r:
    Result<String, String>)
    ensures
        r matches Ok(t) && exists|c: JwtClaims|
            {
                &&& issued_for(c, *user_id, email@, *role)
                &&& c.exp == (c.iat + ACCESS_TOKEN_TTL_SECONDS) as usize
                &&& t@ == #[trigger] signed(c, jwt_secret@)
                &&& hs256_claims(t@, jwt_secret@) == Some(claims_tuple(c))
            },
{
    let claims = access_token_claims(user_id, email, role);
    let r = sign_claims(&claims, jwt_secret);
    assert(r matches Ok(t) && t@ == signed(claims, jwt_secret@) && hs256_claims(t@, jwt_secret@)
        == Some(claims_tuple(claims)));
    r
}

/// The leeway, in seconds, that `jsonwebtoken`'s default validation grants
/// after a token's `exp`.
pub const TOKEN_EXPIRY_LEEWAY_SECS: u64 = 60;

/// Whether a token whose `exp` is `exp` is expired at Unix second `now`:
/// `exp` lies more than the leeway before `now`.
pub open spec fn is_expired(exp: usize, now: int) -> bool {
    exp + TOKEN_EXPIRY_LEEWAY_SECS < now
}

/// What checking `token` under `secret` at Unix second `now` reads: the
/// claims it carries when it verifies and has not expired.
pub open spec fn claims_at(token: Seq<char>, secret: Seq<char>, now: int) -> Option<
    (Seq<char>, Seq<char>, Seq<char>, usize, usize),
> {
    match hs256_claims(token, secret) {
        Some(t) => if is_expired(t.3, now) {
            None
        } else {
            Some(t)
        },
        None => None,
    }
}

/// The outcome of checking a token (`decoded`, none when refused) is what
/// `claims_at` gives at Unix second `now`.
pub open spec fn checked_at(
    token: Seq<char>,
    secret: Seq<char>,
    now: int,
    decoded: Option<JwtClaims>,
) -> bool {
    match claims_at(token, secret, now) {
        Some(t) => decoded matches Some(c) && claims_tuple(c) == t,
        None => decoded is None,
    }
}

/// Checks an access token under `jwt_secret` against the current Unix
/// second and reads its claims: it is accepted exactly when its signature
/// verifies and its `exp` has not passed (with a minute of leeway).
pub fn decode_access_token(token: &str, jwt_secret: &str) -> (r: Result<JwtClaims, String>)
    ensures
        r matches Ok(c) ==> hs256_claims(token@, jwt_secret@) == Some(claims_tuple(c)),
        never_expires(token@, jwt_secret@) ==> r is Ok,
        exists|reading: (i64, u32, String)|
            #[trigger] utc_clock_reading(reading) && checked_at(
                token@,
                jwt_secret@,
                reading.0 as int,
                match r {
                    Ok(c) => Some(c),
                    Err(_) => None,
                },
            ),
{
    let reading = read_utc_clock();
    let ghost clock = reading;
    let (now, _, _) = reading;
    let claims = match decode_claims(token, jwt_secret) {
        Ok(c) => c,
        Err(message) => return Err(message),
    };
    if (claims.exp as u128) + (TOKEN_EXPIRY_LEEWAY_SECS as u128) < (now as u128) {
        assert(is_expired(claims.exp, clock.0 as int));
        Err("failed to decode jwt: ExpiredSignature".to_string())
    } else {
        assert(!is_expired(claims.exp, clock.0 as int));
        Ok(claims)
    }
}

} // verus!
