//! Password login: checks the credentials and issues a one-time,
//! time-boxed 2FA challenge whose code is stored only as a hash.
use vstd::prelude::*;

use crate::applications::application_store::DevEmailEvent;
use crate::errors::{ApiError, ApiErrorView};
use crate::models::auth::{EmailLog, LoginChallenge};
use crate::models::object_id::ObjectId;
use crate::models::user::User;
use crate::security::{argon2_verifies, hash_password, phc_hash_parses, verify_password};
use crate::utils::clock::{instant_millis, millis_of, read_utc_clock, rfc3339_utc, utc_clock_reading};
use crate::utils::constants::CHALLENGE_TTL_MILLIS;
use crate::utils::text::{chars_of, fixed_digits, is_ascii_digit, push_char, push_fixed_digits};

verus! {

/// The purpose recorded in the audit log for a login code.
pub const LOGIN_CODE_PURPOSE: &'static str = "login_2fa";

/// The answer to an unknown address and to a wrong password alike, so that
/// the endpoint does not tell which accounts exist.
pub open spec fn invalid_credentials() -> ApiErrorView {
    ApiErrorView::Unauthorized("invalid email or password"@)
}

/// What checking `password` against the account found under the email gives:
/// the account id, or the refusal.
pub open spec fn credentials_verdict(found: Option<User>, password: Seq<char>) -> Option<
    ApiErrorView,
> {
    match found {
        None => Some(invalid_credentials()),
        Some(u) => if !phc_hash_parses(u.password_hash@) {
            None
        } else if !argon2_verifies(password, u.password_hash@) {
            Some(invalid_credentials())
        } else if u.id is None {
            Some(ApiErrorView::Internal("user id missing"@))
        } else {
            None
        },
    }
}

/// Checks the password of the account stored under the login email (`found`
/// is the result of looking the lower-cased address up).
pub fn check_credentials(found: &Option<User>, password: &str) -> (r: Result<ObjectId, ApiError>)
    ensures
        match found {
            Some(u) if phc_hash_parses(u.password_hash@) && argon2_verifies(
                password@,
                u.password_hash@,
            ) && u.id is Some => r == Ok::<ObjectId, ApiError>(u.id->0),
            Some(u) if !phc_hash_parses(u.password_hash@) => r matches Err(e) && e@ is Internal,
            _ => r matches Err(e) && Some(e@) == credentials_verdict(*found, password@),
        },
{
    let user = match found {
        None => return Err(ApiError::Unauthorized("invalid email or password".to_string())),
        Some(u) => u,
    };
    match verify_password(password, user.password_hash.as_str()) {
        Err(message) => Err(ApiError::Internal(message)),
        Ok(false) => Err(ApiError::Unauthorized("invalid email or password".to_string())),
        Ok(true) => match user.id {
            Some(id) => Ok(id),
            None => Err(ApiError::Internal("user id missing".to_string())),
        },
    }
}

/// The text of a login code: six decimal digits, zero-padded.
pub open spec fn code_text(n: nat) -> Seq<char> {
    fixed_digits(n, 10, 6)
}

/// A text that is the code of some number below one million.
pub open spec fn is_code_text(s: Seq<char>) -> bool {
    exists|n: nat| n < 1_000_000 && s == code_text(n)
}

/// `format!("{:06}", n)`.
pub fn format_code(n: u32) -> (s: String)
    requires
        n < 1_000_000,
    ensures
        s@ == code_text(n as nat),
{
    let mut s = String::new();
    push_fixed_digits(&mut s, n as u64, 10, 6);
    assert(s@ =~= code_text(n as nat));
    s
}

/// A uniformly drawn number below one million.
///
/// Trusted: calls `rand::rng().random_range(0..1_000_000)`; the contract
/// claims only that the result lies in that range.
#[verifier::external_body]
fn draw_code_number() -> (r: u32)
    ensures
        r < 1_000_000,
{
    rand::Rng::random_range(&mut rand::rng(), 0..1_000_000u32)
}

/// A fresh challenge for `user_id`, created at `now` (Unix milliseconds) and
/// expiring five minutes later.
pub open spec fn is_fresh_challenge(
    c: LoginChallenge,
    user_id: ObjectId,
    code_hash: Seq<char>,
    now: int,
) -> bool {
    &&& c.id is None
    &&& c.user_id == user_id
    &&& c.code_hash@ == code_hash
    &&& c.created_at == now
    &&& c.expires_at == now + CHALLENGE_TTL_MILLIS
    &&& c.used_at is None
}

/// A fresh, unused challenge for `user_id` holding `code_hash`, created at
/// `now` and expiring `CHALLENGE_TTL_MILLIS` later.
pub fn new_challenge(user_id: ObjectId, code_hash: String, now: i64) -> (c: LoginChallenge)
    requires
        now + CHALLENGE_TTL_MILLIS <= i64::MAX,
    ensures
        is_fresh_challenge(c, user_id, code_hash@, now as int),
{
    LoginChallenge {
        id: None,
        user_id,
        code_hash,
        expires_at: now + CHALLENGE_TTL_MILLIS,
        used_at: None,
        created_at: now,
    }
}

/// A login code together with the challenge that holds its hash, and the
/// RFC 3339 text of the instant it was issued.
pub struct IssuedCode {
    pub code: String,
    pub challenge: LoginChallenge,
    pub issued_at: String,
}

/// Draws a code, hashes it, and builds the challenge for `user_id` at the
/// current time.
pub fn issue_login_code(user_id: ObjectId) -> (r: Result<IssuedCode, ApiError>)
    ensures
        r matches Ok(issued) ==> {
            &&& is_code_text(issued.code@)
            &&& is_fresh_challenge(
                issued.challenge,
                user_id,
                issued.challenge.code_hash@,
                issued.challenge.created_at as int,
            )
            &&& phc_hash_parses(issued.challenge.code_hash@)
            &&& argon2_verifies(issued.code@, issued.challenge.code_hash@)
            &&& issued.challenge.code_hash@ != issued.code@
            &&& exists|secs: int, nanos: int|
                {
                    &&& 0 <= secs < 10_000_000_000_000
                    &&& 0 <= nanos < 1_000_000_000
                    &&& issued.challenge.created_at == instant_millis(secs, nanos)
                    &&& #[trigger] rfc3339_utc(secs, nanos) == issued.issued_at@
                }
            &&& exists|reading: (i64, u32, String)|
                {
                    &&& #[trigger] utc_clock_reading(reading)
                    &&& issued.challenge.created_at == instant_millis(reading.0 as int, reading.1 as int)
                    &&& issued.issued_at == reading.2
                }
        },
        r is Ok,
{
    let n = draw_code_number();
    let code = format_code(n);
    proof {
        crate::utils::text::lemma_fixed_decimal_digits(n as nat, 6);
        crate::utils::text::lemma_fixed_digits_len(n as nat, 10, 6);
        assert(is_ascii_digit(code@[0]));
    }
    let code_hash = match hash_password(code.as_str()) {
        Ok(h) => h,
        Err(message) => return Err(ApiError::Internal(message)),
    };
    proof {
        assert(code_hash@[0] != code@[0]);
    }
    let reading = read_utc_clock();
    let ghost clock = reading;
    let (secs, nanos, issued_at) = reading;
    let now = millis_of(secs, nanos);
    let challenge = new_challenge(user_id, code_hash, now);
    assert(utc_clock_reading(clock) && clock.2 == issued_at);
    Ok(IssuedCode { code, challenge, issued_at })
}

/// The masked form of a code kept in the audit log: its first four digits
/// replaced by `*`.
pub open spec fn masked_code(code: Seq<char>) -> Seq<char> {
    "****"@ + code.skip(4)
}

/// The audit record of delivering `code` for the challenge `challenge_id`.
pub fn code_delivery_log(to_email: &str, code: &str, challenge_id: ObjectId, created_at: i64) -> (log:
    EmailLog)
    requires
        is_code_text(code@),
    ensures
        log.id is None,
        log.to_email@ == to_email@,
        log.purpose@ == "login_2fa"@,
        log.masked_code@ == masked_code(code@),
        log.challenge_id == challenge_id,
        log.created_at == created_at,
{
    let digits = chars_of(code);
    let mut masked = "****".to_string();
    let mut i: usize = 4;
    proof {
        reveal_strlit("****");
        let n = choose|n: nat| n < 1_000_000 && code@ == code_text(n);
        crate::utils::text::lemma_fixed_digits_len(n, 10, 6);
    }
    while i < digits.len()
        invariant
            digits@ == code@,
            4 <= i <= digits.len(),
            masked@ == "****"@ + code@.subrange(4, i as int),
        decreases digits.len() - i,
    {
        push_char(&mut masked, digits[i]);
        assert(masked@ =~= "****"@ + code@.subrange(4, i + 1));
        i += 1;
    }
    assert(code@.subrange(4, i as int) =~= code@.skip(4));
    EmailLog {
        id: None,
        to_email: to_email.to_string(),
        purpose: LOGIN_CODE_PURPOSE.to_string(),
        masked_code: masked,
        challenge_id,
        created_at,
    }
}

/// The development mailbox entry for a delivered code.
pub fn dev_email_event(to_email: &str, code: &str, challenge_id: &ObjectId, issued_at: &str) -> (e:
    DevEmailEvent)
    ensures
        e.to_email@ == to_email@,
        e.code@ == code@,
        e.challenge_id@ == challenge_id.hex(),
        e.created_at_iso@ == issued_at@,
{
    DevEmailEvent {
        to_email: to_email.to_string(),
        code: code.to_string(),
        challenge_id: challenge_id.to_hex(),
        created_at_iso: issued_at.to_string(),
    }
}

} // verus!
