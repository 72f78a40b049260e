use task_auth::config::AppConfig;
use task_auth::utils::text::parse_unsigned;

#[test]
fn defaults_when_unset() {
    let cfg = AppConfig::from_settings(None, None, None, None, None, None, None);
    assert_eq!(cfg.host, "127.0.0.1");
    assert_eq!(cfg.port, 8080);
    assert_eq!(cfg.mongo_uri, "mongodb://localhost:27017");
    assert_eq!(cfg.mongo_db_name, "task_auth_db");
    assert_eq!(cfg.redis_url, "redis://127.0.0.1:6379");
    assert_eq!(cfg.jwt_secret, "change-me-in-env");
    assert_eq!(cfg.rate_limit_per_second, 60);
}

#[test]
fn values_when_set() {
    let s = |v: &str| Some(v.to_string());
    let cfg = AppConfig::from_settings(
        s("0.0.0.0"),
        s("9000"),
        s("mongodb://db:27017"),
        s("prod"),
        s("redis://cache:6379"),
        s("SECRET-REDACTED"),
        s("0"),
    );
    assert_eq!(cfg.host, "0.0.0.0");
    assert_eq!(cfg.port, 9000);
    assert_eq!(cfg.mongo_uri, "mongodb://db:27017");
    assert_eq!(cfg.mongo_db_name, "prod");
    assert_eq!(cfg.redis_url, "redis://cache:6379");
    assert_eq!(cfg.jwt_secret, "SECRET-REDACTED");
    assert_eq!(cfg.rate_limit_per_second, 0);
}

#[test]
fn unparsable_numbers_fall_back() {
    let s = |v: &str| Some(v.to_string());
    let cfg = AppConfig::from_settings(None, s("70000"), None, None, None, None, s("-1"));
    assert_eq!(cfg.port, 8080);
    assert_eq!(cfg.rate_limit_per_second, 60);
    let cfg = AppConfig::from_settings(None, s("+443"), None, None, None, None, s(" 5"));
    assert_eq!(cfg.port, 443);
    assert_eq!(cfg.rate_limit_per_second, 60);
}

#[test]
fn unsigned_parsing_matches_std() {
    for text in ["0", "65535", "65536", "+7", "+", "", "-0", "12a", "007", "++1", " 1", "1 "] {
        assert_eq!(parse_unsigned(text, 65535), text.parse::<u16>().ok().map(u64::from), "{text}");
    }
    for text in ["18446744073709551615", "18446744073709551616", "99999999999999999999"] {
        assert_eq!(parse_unsigned(text, u64::MAX), text.parse::<u64>().ok(), "{text}");
    }
}
