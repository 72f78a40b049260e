//! Service configuration and its defaults.
use vstd::prelude::*;

use crate::utils::text::{parse_unsigned, parse_unsigned_spec};

verus! {

/// The service settings.
pub struct AppConfig {
    pub host: String,
    pub port: u16,
    pub mongo_uri: String,
    pub mongo_db_name: String,
    pub redis_url: String,
    pub jwt_secret: String,
    /// Max requests allowed per identity (user, else IP) within a 1-second
    /// bucket. `0` disables rate limiting.
    pub rate_limit_per_second: u64,
}

/// A setting's text, or `default` when it is unset.
pub open spec fn text_or(value: Option<String>, default: Seq<char>) -> Seq<char> {
    match value {
        Some(v) => v@,
        None => default,
    }
}

/// A numeric setting: its value when set and it parses as an unsigned
/// number no greater than `max`, else `default`.
pub open spec fn number_or(value: Option<String>, max: nat, default: nat) -> nat {
    match value {
        Some(v) => match parse_unsigned_spec(v@, max) {
            Some(n) => n,
            None => default,
        },
        None => default,
    }
}

/// A text setting, or its default when unset.
fn text_setting(value: Option<String>, default: &str) -> (r: String)
    ensures
        r@ == text_or(value, default@),
{
    match value {
        Some(v) => v,
        None => default.to_string(),
    }
}

impl AppConfig {
    /// The configuration from the values of `HOST`, `PORT`, `MONGO_URI`,
    /// `MONGO_DB_NAME`, `REDIS_URL`, `JWT_SECRET` and
    /// `RATE_LIMIT_PER_SECOND` (`None` when a variable is unset).
    pub fn from_settings(
        host: Option<String>,
        port: Option<String>,
        mongo_uri: Option<String>,
        mongo_db_name: Option<String>,
        redis_url: Option<String>,
        jwt_secret: Option<String>,
        rate_limit_per_second: Option<String>,
    ) -> (cfg: AppConfig)
        ensures
            cfg.host@ == text_or(host, "127.0.0.1"@),
            cfg.port == number_or(port, 65535, 8080),
            cfg.mongo_uri@ == text_or(mongo_uri, "mongodb://localhost:27017"@),
            cfg.mongo_db_name@ == text_or(mongo_db_name, "task_auth_db"@),
            cfg.redis_url@ == text_or(redis_url, "redis://127.0.0.1:6379"@),
            cfg.jwt_secret@ == text_or(jwt_secret, "change-me-in-env"@),
            cfg.rate_limit_per_second == number_or(rate_limit_per_second, u64::MAX as nat, 60),
    {
        let port: u16 = match port {
            Some(v) => match parse_unsigned(v.as_str(), 65535) {
                Some(n) => n as u16,
                None => 8080,
            },
            None => 8080,
        };
        let rate_limit_per_second: u64 = match rate_limit_per_second {
            Some(v) => match parse_unsigned(v.as_str(), u64::MAX) {
                Some(n) => n,
                None => 60,
            },
            None => 60,
        };
        AppConfig {
            host: text_setting(host, "127.0.0.1"),
            port,
            mongo_uri: text_setting(mongo_uri, "mongodb://localhost:27017"),
            mongo_db_name: text_setting(mongo_db_name, "task_auth_db"),
            redis_url: text_setting(redis_url, "redis://127.0.0.1:6379"),
            jwt_secret: text_setting(jwt_secret, "change-me-in-env"),
            rate_limit_per_second,
        }
    }
}

} // verus!
