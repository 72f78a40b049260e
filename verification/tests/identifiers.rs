use task_auth::errors::ApiError;
use task_auth::models::object_id::ObjectId;
use task_auth::models::task::{priority_as_str, status_as_str, TaskPriority, TaskStatus};
use task_auth::models::user::{parse_role, UserRole};
use task_auth::utils::cache::{needs_expiry, user_tasks_key};

#[test]
fn object_id_hex_round_trip() {
    let id = ObjectId { high: 0x65a1_b2c3, low: 0x0011_2233_4455_6677 };
    assert_eq!(id.to_hex(), "65a1b2c30011223344556677");
    assert_eq!(ObjectId::parse_str("65a1b2c30011223344556677"), Some(id));
    assert_eq!(ObjectId { high: 0, low: 0 }.to_hex(), "000000000000000000000000");
    let max = ObjectId { high: u32::MAX, low: u64::MAX };
    assert_eq!(max.to_hex(), "ffffffffffffffffffffffff");
}

#[test]
fn object_id_parse_accepts_upper_case_and_prints_lower_case() {
    let id = ObjectId::parse_str("65A1B2C30011223344556677").expect("upper case parses");
    assert_eq!(id.to_hex(), "65a1b2c30011223344556677");
}

#[test]
fn object_id_parse_rejects_other_text() {
    assert_eq!(ObjectId::parse_str(""), None);
    assert_eq!(ObjectId::parse_str("65a1b2c3001122334455667"), None);
    assert_eq!(ObjectId::parse_str("65a1b2c300112233445566778"), None);
    assert_eq!(ObjectId::parse_str("65a1b2c30011223344556g77"), None);
    assert_eq!(ObjectId::parse_str(" 5a1b2c30011223344556677"), None);
}

#[test]
fn role_names() {
    assert_eq!(UserRole::Admin.as_str(), "admin");
    assert_eq!(UserRole::Staff.as_str(), "staff");
    assert_eq!(parse_role("admin"), Some(UserRole::Admin));
    assert_eq!(parse_role("staff"), Some(UserRole::Staff));
    assert_eq!(parse_role("Admin"), None);
    assert_eq!(parse_role(""), None);
    assert_eq!(UserRole::from_str("staff"), Some(UserRole::Staff));
}

#[test]
fn task_attribute_names() {
    assert_eq!(status_as_str(&TaskStatus::Todo), "todo");
    assert_eq!(status_as_str(&TaskStatus::InProgress), "inprogress");
    assert_eq!(status_as_str(&TaskStatus::Done), "done");
    assert_eq!(priority_as_str(&TaskPriority::High), "high");
    assert_eq!(priority_as_str(&TaskPriority::Medium), "medium");
    assert_eq!(priority_as_str(&TaskPriority::Low), "low");
    assert_eq!(TaskStatus::Done.as_str(), "done");
    assert_eq!(TaskPriority::Low.as_str(), "low");
}

#[test]
fn error_statuses_and_messages() {
    let cases = vec![
        (ApiError::BadRequest("bad".to_string()), 400, "bad"),
        (ApiError::Validation(vec!["x".to_string()]), 400, "validation failed"),
        (ApiError::Unauthorized("who".to_string()), 401, "who"),
        (ApiError::Forbidden, 403, "forbidden"),
        (ApiError::NotFound("gone".to_string()), 404, "gone"),
        (ApiError::Internal("boom".to_string()), 500, "boom"),
    ];
    for (e, status, message) in cases {
        assert_eq!(e.status_code(), status);
        assert_eq!(e.message(), message);
    }
    assert_eq!(ApiError::Validation(vec!["x".to_string()]).details(), Some(vec!["x".to_string()]));
    assert_eq!(ApiError::Forbidden.details(), None);
}

#[test]
fn task_view_cache_key() {
    let id = ObjectId { high: 0x65a1_b2c3, low: 1 };
    assert_eq!(user_tasks_key(&id), "tasks:view:65a1b2c30000000000000001");
    assert!(needs_expiry(1));
    assert!(!needs_expiry(2));
    assert!(!needs_expiry(0));
}
