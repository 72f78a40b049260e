//! Reading the wall clock.
use vstd::prelude::*;

verus! {

/// The RFC 3339 text that chrono's `to_rfc3339` writes for the UTC instant
/// `secs` seconds and `nanos` nanoseconds after the Unix epoch.
pub uninterp spec fn rfc3339_utc(secs: int, nanos: int) -> Seq<char>;

/// The Unix millisecond of an instant given as whole seconds and
/// nanoseconds (`DateTime::timestamp_millis` for instants since the epoch).
pub open spec fn instant_millis(secs: int, nanos: int) -> int {
    secs * 1000 + nanos / 1_000_000
}

/// The current instant from `chrono::Utc::now()`: whole Unix seconds, the
/// nanoseconds within that second, and the RFC 3339 text of the instant.
///
/// Trusted: the time is whatever the machine reports; the contract claims
/// that it is not before the Unix epoch (`Utc::now` panics on a clock set
/// before 1970), lies in chrono's representable range (up to year 262142,
/// below 10^13 seconds), that the nanoseconds come from `SystemTime` (below
/// one second), and that the text is `to_rfc3339` of that same instant.
#[verifier::external_body]
fn utc_now() -> (r: (i64, u32, String))
    ensures
        0 <= r.0 < 10_000_000_000_000,
        r.1 < 1_000_000_000,
        r.2@ == rfc3339_utc(r.0 as int, r.1 as int),
{
    let now = chrono::Utc::now();
    (now.timestamp(), now.timestamp_subsec_nanos(), now.to_rfc3339())
}

/// The Unix millisecond of an instant since the epoch.
pub fn millis_of(secs: i64, nanos: u32) -> (ms: i64)
    requires
        0 <= secs < 10_000_000_000_000,
        nanos < 1_000_000_000,
    ensures
        ms == instant_millis(secs as int, nanos as int),
        0 <= ms < 10_000_000_000_000_000,
{
    secs * 1000 + (nanos / 1_000_000) as i64
}

/// The current instant from `mongodb::bson::DateTime::now()`, in Unix
/// milliseconds, as documents store it.
///
/// Trusted: nothing is claimed of the value.
#[verifier::external_body]
fn db_now() -> (r: i64) {
    mongodb::bson::DateTime::now().timestamp_millis()
}

/// `r` is what one call of `utc_now` returned: the whole Unix seconds, the
/// nanoseconds and the RFC 3339 text of the instant the wall clock was read.
pub closed spec fn utc_clock_reading(r: (i64, u32, String)) -> bool {
    call_ensures(utc_now, (), r)
}

/// What every wall-clock reading satisfies.
pub proof fn lemma_utc_clock_reading(r: (i64, u32, String))
    requires
        utc_clock_reading(r),
    ensures
        0 <= r.0 < 10_000_000_000_000,
        r.1 < 1_000_000_000,
        r.2@ == rfc3339_utc(r.0 as int, r.1 as int),
{
}

/// Reads the wall clock (`chrono::Utc::now()`).
pub fn read_utc_clock() -> (r: (i64, u32, String))
    ensures
        utc_clock_reading(r),
        0 <= r.0 < 10_000_000_000_000,
        r.1 < 1_000_000_000,
        r.2@ == rfc3339_utc(r.0 as int, r.1 as int),
{
    utc_now()
}

/// `ms` is what one call of `db_now` returned: the Unix millisecond of the
/// instant the clock was read, in the unit documents store.
pub closed spec fn db_clock_reading(ms: i64) -> bool {
    call_ensures(db_now, (), ms)
}

/// Reads the current Unix millisecond (`bson::DateTime::now()`).
pub fn read_db_clock() -> (ms: i64)
    ensures
        db_clock_reading(ms),
{
    db_now()
}

} // verus!
