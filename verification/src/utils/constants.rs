//! Collection names, cache keys and lifetimes.
use vstd::prelude::*;

verus! {

/// The collection of user accounts.
pub const USERS_COLLECTION: &'static str = "users";

/// The collection of tasks.
pub const TASKS_COLLECTION: &'static str = "tasks";

/// The collection of 2FA login challenges.
pub const LOGIN_CHALLENGES_COLLECTION: &'static str = "login_challenges";

/// The collection of delivered-code audit records.
pub const EMAIL_LOGS_COLLECTION: &'static str = "email_logs";

/// The prefix of a user's cached task view key.
pub const TASKS_VIEW_CACHE_PREFIX: &'static str = "tasks:view:";

/// How long a cached task view lives, in seconds.
pub const TASKS_VIEW_CACHE_TTL_SECS: u64 = 300;

/// How long a 2FA challenge stays valid, in minutes.
pub const CHALLENGE_TTL_MINUTES: i64 = 5;

/// How long a 2FA challenge stays valid, in milliseconds.
pub const CHALLENGE_TTL_MILLIS: i64 = CHALLENGE_TTL_MINUTES * 60_000;

/// How long an access token stays valid, in hours.
pub const ACCESS_TOKEN_TTL_HOURS: i64 = 24;

/// How long an access token stays valid, in seconds.
pub const ACCESS_TOKEN_TTL_SECONDS: i64 = ACCESS_TOKEN_TTL_HOURS * 3600;

} // verus!
