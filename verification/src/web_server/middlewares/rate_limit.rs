//! Per-identity, per-second request limiting.
//!
//! One counter per identity per Unix second, under
//! `rate_limit:<identity>:<second>`; a request is refused once its counter
//! exceeds the limit. A limit of 0 disables limiting, and a counter that
//! could not be read never refuses a request.
use vstd::prelude::*;

use crate::compute::authorization::header_bearer;
use crate::models::session::JwtClaims;
use crate::utils::clock::{instant_millis, read_utc_clock, utc_clock_reading};
use crate::utils::jwt::{checked_as, checked_at, decode_access_token};
use crate::utils::text::{push_signed_decimal, signed_decimal};

verus! {

/// Counters live a little longer than their second to avoid boundary races.
pub const BUCKET_TTL_SECS: i64 = 2;

/// The rate-limit policy.
pub struct RateLimit;

/// Whom a request counts against: the subject of a valid token, else the
/// peer address, else `unknown`.
pub open spec fn identity_spec(token_subject: Option<Seq<char>>, peer: Option<Seq<char>>) -> Seq<char> {
    match token_subject {
        Some(sub) => "user:"@ + sub,
        None => "ip:"@ + match peer {
            Some(addr) => addr,
            None => "unknown"@,
        },
    }
}

/// The counter key of `identity` in Unix second `second`.
pub open spec fn bucket_key_spec(identity: Seq<char>, second: int) -> Seq<char> {
    "rate_limit:"@ + identity + ":"@ + signed_decimal(second)
}

/// Whether a request whose counter reached `count` is refused.
pub open spec fn refuses_count(limit: u64, count: int) -> bool {
    limit > 0 && count > limit
}

/// How many of the requests counted 1, 2, ..., `n` in one bucket are let
/// through.
pub open spec fn admitted_among(limit: u64, n: nat) -> nat
    decreases n,
{
    if n == 0 {
        0
    } else if refuses_count(limit, n as int) {
        admitted_among(limit, (n - 1) as nat)
    } else {
        admitted_among(limit, (n - 1) as nat) + 1
    }
}

/// Within one second, the counter of an identity's bucket numbers its
/// requests 1, 2, ..., n; of these exactly `min(n, limit)` are let through
/// (all `n` when limiting is off), and every later one is refused.
pub proof fn law_admits_at_most_limit_per_second(limit: u64, n: nat)
    ensures
        limit > 0 ==> admitted_among(limit, n) == if n <= limit {
            n
        } else {
            limit as nat
        },
        limit == 0 ==> admitted_among(limit, n) == n,
    decreases n,
{
    if n > 0 {
        law_admits_at_most_limit_per_second(limit, (n - 1) as nat);
    }
}

/// The subject named by decoded claims, if any.
pub open spec fn subject_of(decoded: Option<JwtClaims>) -> Option<Seq<char>> {
    match decoded {
        Some(c) => Some(c.sub@),
        None => None,
    }
}

/// The identity a request counts against, from its `Authorization` header
/// and its peer address: the subject of a bearer token that verifies under
/// `jwt_secret`, else the peer address.
pub fn identify(authorization: Option<&str>, peer: Option<&str>, jwt_secret: &str) -> (r: String)
    ensures
        ({
            let peer_text = match peer {
                Some(p) => Some(p@),
                None => None,
            };
            &&& header_bearer(authorization) matches Some(t) ==> exists|
                decoded: Option<JwtClaims>,
            |
                r@ == identity_spec(#[trigger] subject_of(decoded), peer_text) && checked_as(
                    t,
                    jwt_secret@,
                    decoded,
                )
            &&& header_bearer(authorization) matches Some(t) ==> exists|
                reading: (i64, u32, String),
                decoded: Option<JwtClaims>,
            |
                #![trigger utc_clock_reading(reading), subject_of(decoded)]
                utc_clock_reading(reading) && checked_at(t, jwt_secret@, reading.0 as int, decoded)
                    && r@ == identity_spec(subject_of(decoded), peer_text)
            &&& header_bearer(authorization) is None ==> r@ == identity_spec(None, peer_text)
        }),
{
    let token = match authorization {
        Some(h) => crate::compute::authorization::bearer_token(h),
        None => None,
    };
    match token {
        Some(t) => {
            let decoded = match decode_access_token(t.as_str(), jwt_secret) {
                Ok(c) => Some(c),
                Err(_) => None,
            };
            let r = match &decoded {
                Some(c) => RateLimit::identity(Some(c.sub.as_str()), peer),
                None => RateLimit::identity(None, peer),
            };
            assert(r@ == identity_spec(subject_of(decoded), match peer {
                Some(p) => Some(p@),
                None => None,
            }) && checked_as(t@, jwt_secret@, decoded));
            proof {
                let reading = choose|reading: (i64, u32, String)|
                    #[trigger] utc_clock_reading(reading) && checked_at(
                        t@,
                        jwt_secret@,
                        reading.0 as int,
                        decoded,
                    );
                assert(utc_clock_reading(reading) && subject_of(decoded) == subject_of(decoded));
            }
            r
        },
        None => RateLimit::identity(None, peer),
    }
}

impl RateLimit {
    /// The identity a request counts against; `token_subject` is the subject
    /// of the bearer token when it verified, `peer` the client address.
    pub fn identity(token_subject: Option<&str>, peer: Option<&str>) -> (r: String)
        ensures
            r@ == identity_spec(
                match token_subject {
                    Some(s) => Some(s@),
                    None => None,
                },
                match peer {
                    Some(p) => Some(p@),
                    None => None,
                },
            ),
    {
        match token_subject {
            Some(sub) => "user:".to_string().concat(sub),
            None => {
                let addr = match peer {
                    Some(p) => p,
                    None => "unknown",
                };
                "ip:".to_string().concat(addr)
            },
        }
    }

    /// The counter key of `identity` in Unix second `second`.
    pub fn bucket_key(identity: &str, second: i64) -> (key: String)
        ensures
            key@ == bucket_key_spec(identity@, second as int),
    {
        let mut key = "rate_limit:".to_string().concat(identity).concat(":");
        push_signed_decimal(&mut key, second);
        key
    }

    /// The current Unix second (`chrono::Utc::now().timestamp()`): the whole
    /// seconds of a wall-clock reading, the floor of its Unix millisecond
    /// divided by 1000.
    pub fn current_second() -> (r: i64)
        ensures
            0 <= r < 10_000_000_000_000,
            exists|reading: (i64, u32, String)|
                #[trigger] utc_clock_reading(reading) && r == reading.0 && r == instant_millis(
                    reading.0 as int,
                    reading.1 as int,
                ) / 1000,
    {
        let reading = read_utc_clock();
        let ghost clock = reading;
        let (secs, _, _) = reading;
        assert(instant_millis(clock.0 as int, clock.1 as int) / 1000 == clock.0) by (nonlinear_arith)
            requires
                0 <= clock.1 < 1_000_000_000,
                instant_millis(clock.0 as int, clock.1 as int) == clock.0 * 1000 + clock.1 / 1_000_000,
        ;
        secs
    }

    /// Limiting is on unless the limit is 0.
    pub fn is_enabled(limit: u64) -> (r: bool)
        ensures
            r == (limit > 0),
    {
        limit > 0
    }

    /// Whether a request is refused, given the counter value after counting
    /// it (`None` when the counter could not be updated).
    pub fn rejects(limit: u64, count: Option<u64>) -> (r: bool)
        ensures
            r == match count {
                Some(c) => refuses_count(limit, c as int),
                None => false,
            },
    {
        match count {
            Some(c) => limit > 0 && c > limit,
            None => false,
        }
    }
}

/// The bucket second is the current Unix second: the floor of the wall
/// clock's Unix millisecond divided by 1000, so every request read within one
/// wall-clock second lands in the same bucket of its identity.
pub proof fn law_bucket_second_is_current_second(r: i64)
    requires
        call_ensures(RateLimit::current_second, (), r),
    ensures
        exists|reading: (i64, u32, String)|
            #[trigger] utc_clock_reading(reading) && r == instant_millis(reading.0 as int, reading.1 as int)
                / 1000,
{
}

} // verus!
