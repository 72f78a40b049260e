//! 2FA verification: a challenge is accepted once, before it expires, for
//! the code whose hash it holds; then an access token is issued.
use vstd::prelude::*;

use crate::errors::{ApiError, ApiErrorView};
use crate::models::auth::LoginChallenge;
use crate::models::object_id::{object_id_from_text, ObjectId};
use crate::models::user::{User, UserRole};
use crate::security::{argon2_verifies, phc_hash_parses, verify_password};
use crate::utils::clock::{db_clock_reading, read_db_clock};

verus! {

/// Reads the challenge id of a verification request.
pub fn parse_challenge_id(raw: &str) -> (r: Result<ObjectId, ApiError>)
    ensures
        match object_id_from_text(raw@) {
            Some(id) => r == Ok::<ObjectId, ApiError>(id),
            None => r matches Err(e) && e@ == ApiErrorView::BadRequest(
                "invalid login_challenge_id"@,
            ),
        },
{
    match ObjectId::parse_str(raw) {
        Some(id) => Ok(id),
        None => Err(ApiError::BadRequest("invalid login_challenge_id".to_string())),
    }
}

/// Why a challenge is refused at Unix millisecond `now` for `code`, checked
/// in this order: missing, already used, expired, wrong code. `None` when
/// it is accepted or when its stored hash does not parse (an internal error).
pub open spec fn challenge_refusal(found: Option<LoginChallenge>, code: Seq<char>, now: int) -> Option<
    ApiErrorView,
> {
    match found {
        None => Some(ApiErrorView::Unauthorized("invalid or expired challenge"@)),
        Some(c) => if c.used_at is Some {
            Some(ApiErrorView::Unauthorized("verification code already used"@))
        } else if c.expires_at < now {
            Some(ApiErrorView::Unauthorized("verification code expired"@))
        } else if phc_hash_parses(c.code_hash@) && !argon2_verifies(code, c.code_hash@) {
            Some(ApiErrorView::Unauthorized("incorrect verification code"@))
        } else {
            None
        },
    }
}

/// The challenge passes every check at `now` for `code`.
pub open spec fn challenge_accepts(found: Option<LoginChallenge>, code: Seq<char>, now: int) -> bool {
    &&& found matches Some(c)
    &&& c.used_at is None
    &&& now <= c.expires_at
    &&& phc_hash_parses(c.code_hash@)
    &&& argon2_verifies(code, c.code_hash@)
}

/// Checks the challenge loaded for the request against `code` at Unix
/// millisecond `now`.
pub fn check_challenge_at(found: &Option<LoginChallenge>, code: &str, now: i64) -> (r: Result<
    (),
    ApiError,
>)
    ensures
        r is Ok <==> challenge_accepts(*found, code@, now as int),
        r matches Err(e) ==> match challenge_refusal(*found, code@, now as int) {
            Some(v) => e@ == v,
            None => e@ is Internal,
        },
{
    let challenge = match found {
        None => return Err(ApiError::Unauthorized("invalid or expired challenge".to_string())),
        Some(c) => c,
    };
    if challenge.used_at.is_some() {
        return Err(ApiError::Unauthorized("verification code already used".to_string()));
    }
    if challenge.expires_at < now {
        return Err(ApiError::Unauthorized("verification code expired".to_string()));
    }
    match verify_password(code, challenge.code_hash.as_str()) {
        Err(message) => Err(ApiError::Internal(message)),
        Ok(false) => Err(ApiError::Unauthorized("incorrect verification code".to_string())),
        Ok(true) => Ok(()),
    }
}

/// Checks the challenge against `code` at the current Unix millisecond, the
/// clock and unit that stamp a challenge's creation and expiry.
pub fn check_challenge(found: &Option<LoginChallenge>, code: &str) -> (r: Result<(), ApiError>)
    ensures
        exists|now: i64|
            {
                &&& #[trigger] db_clock_reading(now)
                &&& (r is Ok <==> challenge_accepts(*found, code@, now as int))
                &&& r matches Err(e) ==> match challenge_refusal(*found, code@, now as int) {
                    Some(v) => e@ == v,
                    None => e@ is Internal,
                }
            },
{
    let now = read_db_clock();
    check_challenge_at(found, code, now)
}

/// The challenge as stored once consumed at Unix millisecond `now`.
pub open spec fn consumed(c: LoginChallenge, now: int) -> LoginChallenge {
    LoginChallenge { used_at: Some(now as i64), ..c }
}

/// Marks a challenge used at `now`; the stored update is conditional on it
/// being still unused, which makes each code one-time.
pub fn consume_challenge_at(challenge: LoginChallenge, now: i64) -> (c: LoginChallenge)
    ensures
        c == consumed(challenge, now as int),
{
    LoginChallenge { used_at: Some(now), ..challenge }
}

/// Marks a challenge used at the current time.
pub fn consume_challenge(challenge: LoginChallenge) -> (c: LoginChallenge)
    ensures
        exists|now: i64| #[trigger] db_clock_reading(now) && c == consumed(challenge, now as int),
{
    let now = read_db_clock();
    consume_challenge_at(challenge, now)
}

/// The stored challenge after the conditional update that consumes it at
/// `now`, and the number of documents that update matched: the update only
/// applies to a challenge whose `used_at` is still unset.
pub open spec fn conditional_consume(stored: LoginChallenge, now: int) -> (LoginChallenge, u64) {
    if stored.used_at is None {
        (consumed(stored, now), 1)
    } else {
        (stored, 0)
    }
}

/// Confirms that storing the consumption took effect: `matched` is the number
/// of challenges the conditional update matched. When it matched none, a
/// concurrent verification consumed the code first, and this one is refused
/// like any reuse.
pub fn confirm_consumption(matched: u64) -> (r: Result<(), ApiError>)
    ensures
        r is Ok <==> matched == 1,
        r matches Err(e) ==> e@ == ApiErrorView::Unauthorized("verification code already used"@),
{
    if matched == 1 {
        Ok(())
    } else {
        Err(ApiError::Unauthorized("verification code already used".to_string()))
    }
}

/// Resolves the account a verified challenge belongs to.
pub fn challenge_owner(found: &Option<User>) -> (r: Result<(ObjectId, UserRole), ApiError>)
    ensures
        match found {
            None => r matches Err(e) && e@ == ApiErrorView::Unauthorized(
                "user not found for challenge"@,
            ),
            Some(u) => match u.id {
                None => r matches Err(e) && e@ == ApiErrorView::Internal("user id missing"@),
                Some(id) => r == Ok::<(ObjectId, UserRole), ApiError>((id, u.role)),
            },
        },
{
    match found {
        None => Err(ApiError::Unauthorized("user not found for challenge".to_string())),
        Some(u) => match u.id {
            None => Err(ApiError::Internal("user id missing".to_string())),
            Some(id) => Ok((id, u.role)),
        },
    }
}

/// The code issued with a fresh challenge is accepted up to five minutes
/// after issue.
pub proof fn law_issued_code_accepted_within_ttl(
    c: LoginChallenge,
    user_id: ObjectId,
    code: Seq<char>,
    issued: int,
    now: int,
)
    requires
        crate::compute::auth::login::is_fresh_challenge(c, user_id, c.code_hash@, issued),
        phc_hash_parses(c.code_hash@),
        argon2_verifies(code, c.code_hash@),
        now <= issued + crate::utils::constants::CHALLENGE_TTL_MILLIS,
    ensures
        challenge_accepts(Some(c), code, now),
        challenge_refusal(Some(c), code, now) is None,
{
}

/// A challenge is refused as expired at any instant after its expiry, when
/// it was not used: five minutes after issue for a fresh one.
pub proof fn law_challenge_expires(c: LoginChallenge, code: Seq<char>, now: int)
    requires
        c.used_at is None,
        now > c.expires_at,
    ensures
        !challenge_accepts(Some(c), code, now),
        challenge_refusal(Some(c), code, now) == Some(
            ApiErrorView::Unauthorized("verification code expired"@),
        ),
{
}

/// A consumed challenge is refused, whatever the code and the time: each
/// code is accepted at most once.
pub proof fn law_consumed_challenge_refused(
    c: LoginChallenge,
    used_at: int,
    code: Seq<char>,
    now: int,
)
    ensures
        !challenge_accepts(Some(consumed(c, used_at)), code, now),
        challenge_refusal(Some(consumed(c, used_at)), code, now) == Some(
            ApiErrorView::Unauthorized("verification code already used"@),
        ),
{
}

/// One-time use under concurrency: two verifications of the same challenge
/// each end with the conditional update; the store applies them one after
/// the other, whatever their interleaving, and at most one of them is
/// confirmed.
pub proof fn law_at_most_one_consumption_confirmed(stored: LoginChallenge, first: int, second: int)
    ensures
        ({
            let (after_first, m1) = conditional_consume(stored, first);
            let (_, m2) = conditional_consume(after_first, second);
            !(m1 == 1 && m2 == 1)
        }),
        stored.used_at is Some ==> conditional_consume(stored, first).1 == 0,
{
}

/// Checking a challenge happens at the current Unix millisecond, the clock
/// and unit that stamp its expiry: an unused challenge whose expiry is
/// earlier than that instant is refused as expired whatever the code, and
/// an unused one not yet expired whose stored hash verifies the code is
/// accepted.
pub proof fn law_check_challenge_at_current_millisecond(
    found: Option<LoginChallenge>,
    code: &str,
    r: Result<(), ApiError>,
)
    requires
        call_ensures(check_challenge, (&found, code), r),
    ensures
        exists|now: i64|
            {
                &&& #[trigger] db_clock_reading(now)
                &&& found matches Some(c) ==> (c.used_at is None && c.expires_at < now ==> (r matches Err(
                    e,
                ) && e@ == ApiErrorView::Unauthorized("verification code expired"@)))
                &&& found matches Some(c) ==> (c.used_at is None && now <= c.expires_at
                    && phc_hash_parses(c.code_hash@) && argon2_verifies(code@, c.code_hash@) ==> r is Ok)
            },
{
}

} // verus!
