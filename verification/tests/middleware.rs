use task_auth::applications::application_store::{DevEmailBook, DevEmailEvent};
use task_auth::errors::ApiError;
use task_auth::models::user::UserRole;
use task_auth::utils::text::{is_blank, text_is_less};
use task_auth::models::object_id::ObjectId;
use task_auth::utils::jwt::issue_access_token;
use task_auth::web_server::middlewares::rate_limit::{identify, RateLimit};
use task_auth::web_server::middlewares::session::SessionMiddleware;

#[test]
fn rate_limit_identity_and_key() {
    assert_eq!(RateLimit::identity(Some("6600"), Some("1.2.3.4")), "user:6600");
    assert_eq!(RateLimit::identity(None, Some("1.2.3.4")), "ip:1.2.3.4");
    assert_eq!(RateLimit::identity(None, None), "ip:unknown");
    assert_eq!(RateLimit::bucket_key("ip:1.2.3.4", 1_700_000_000), "rate_limit:ip:1.2.3.4:1700000000");
    assert_eq!(RateLimit::bucket_key("user:x", 0), "rate_limit:user:x:0");
    assert_eq!(RateLimit::bucket_key("user:x", -5), "rate_limit:user:x:-5");
    assert_eq!(RateLimit::bucket_key("u", i64::MIN), format!("rate_limit:u:{}", i64::MIN));
    assert!(RateLimit::current_second() > 1_600_000_000);
}

#[test]
fn rate_limit_threshold() {
    assert!(!RateLimit::rejects(60, Some(60)));
    assert!(RateLimit::rejects(60, Some(61)));
    assert!(!RateLimit::rejects(0, Some(1_000)));
    assert!(!RateLimit::rejects(1, None));
    assert!(RateLimit::is_enabled(1));
    assert!(!RateLimit::is_enabled(0));
}

#[test]
fn rate_limit_admits_limit_requests_per_second() {
    let admitted = |limit: u64, n: u64| (1..=n).filter(|c| !RateLimit::rejects(limit, Some(*c))).count();
    assert_eq!(admitted(3, 10), 3);
    assert_eq!(admitted(3, 2), 2);
    assert_eq!(admitted(0, 10), 10);
}

#[test]
fn session_requires_a_bearer_token() {
    let missing = ApiError::Unauthorized("missing or invalid authorization header".to_string());
    assert_eq!(SessionMiddleware::authorize_request(None, "s").unwrap_err(), missing);
    assert_eq!(SessionMiddleware::authorize_request(Some("t"), "s").unwrap_err(), missing);
    assert_eq!(
        SessionMiddleware::authorize_request(Some("Bearer t"), "s").unwrap_err(),
        ApiError::Unauthorized("invalid access token".to_string())
    );
    let id = ObjectId { high: 0x6600_0000, low: 1 };
    let token = issue_access_token(&id, "admin@example.com", &UserRole::Admin, "s").expect("token");
    let header = format!("Bearer {token}");
    let user = SessionMiddleware::authorize_request(Some(&header), "s").expect("admitted");
    assert_eq!(user.id, id);
    assert_eq!(user.role, UserRole::Admin);
    assert_eq!(
        SessionMiddleware::authorize_request(Some(&header), "other").unwrap_err(),
        ApiError::Unauthorized("invalid access token".to_string())
    );
}

#[test]
fn rate_limit_identifies_by_token_else_address() {
    let id = ObjectId { high: 0x6600_0000, low: 1 };
    let token = issue_access_token(&id, "admin@example.com", &UserRole::Admin, "s").expect("token");
    let header = format!("Bearer {token}");
    assert_eq!(identify(Some(&header), Some("1.2.3.4"), "s"), format!("user:{}", id.to_hex()));
    assert_eq!(identify(Some(&header), Some("1.2.3.4"), "other"), "ip:1.2.3.4");
    assert_eq!(identify(Some("Basic x"), Some("1.2.3.4"), "s"), "ip:1.2.3.4");
    assert_eq!(identify(None, None, "s"), "ip:unknown");
}

fn event(email: &str, code: &str, at: &str) -> DevEmailEvent {
    DevEmailEvent {
        to_email: email.to_string(),
        code: code.to_string(),
        challenge_id: "c".to_string(),
        created_at_iso: at.to_string(),
    }
}

#[test]
fn dev_mailbox_keeps_latest_code_per_address() {
    let mut book = DevEmailBook::new();
    assert!(book.latest().is_none());
    assert!(book.get("admin@example.com").is_none());
    book.record(event("admin@example.com", "111111", "2024-01-01T00:00:01+00:00"));
    book.record(event("jamesbond@example.com", "222222", "2024-01-01T00:00:03+00:00"));
    book.record(event("admin@example.com", "333333", "2024-01-01T00:00:02+00:00"));
    assert_eq!(book.get("admin@example.com").unwrap().code, "333333");
    assert_eq!(book.get("jamesbond@example.com").unwrap().code, "222222");
    assert!(book.get("other@example.com").is_none());
    assert_eq!(book.latest().unwrap().code, "222222");
    book.record(event("admin@example.com", "444444", "2024-01-01T00:00:04+00:00"));
    assert_eq!(book.latest().unwrap().code, "444444");
}

#[test]
fn text_helpers() {
    assert!(text_is_less("a", "b"));
    assert!(text_is_less("ab", "abc"));
    assert!(!text_is_less("abc", "abc"));
    assert!(!text_is_less("b", "abc"));
    assert!(text_is_less("", "a"));
    for (a, b) in [("é", "z"), ("z", "é"), ("2024-01-02", "2024-01-10")] {
        assert_eq!(text_is_less(a, b), a < b);
    }
    assert!(is_blank(""));
    assert!(is_blank(" \t\n\u{2028}"));
    assert!(!is_blank(" x "));
}
