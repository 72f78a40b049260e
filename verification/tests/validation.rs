use task_auth::models::dtos::{AssignTasksRequest, CreateTaskRequest, LoginRequest, Verify2faRequest};
use task_auth::models::task::{TaskPriority, TaskStatus};
use task_auth::request_validations::auth::{validate_login, validate_verify_2fa};
use task_auth::request_validations::common::is_valid_email;
use task_auth::request_validations::tasks::{validate_assign_tasks, validate_create_task};

#[test]
fn email_shapes() {
    assert!(is_valid_email("admin@example.com"));
    assert!(is_valid_email("a@b.c"));
    assert!(is_valid_email("a@.c"));
    assert!(!is_valid_email(""));
    assert!(!is_valid_email("admin.example.com"));
    assert!(!is_valid_email("@example.com"));
    assert!(is_valid_email("admin@example"));
    assert!(is_valid_email("user@localhost"));
    assert!(!is_valid_email("admin@"));
    assert!(!is_valid_email("@"));
    assert!(!is_valid_email("a@b@c.d"));
    assert!(!is_valid_email("a@b.c@"));
    assert!(is_valid_email("ünïcødé@dömain.tld"));
}

fn login(email: &str, password: &str) -> LoginRequest {
    LoginRequest { email: email.to_string(), password: password.to_string() }
}

#[test]
fn login_validation_collects_all_errors() {
    assert_eq!(validate_login(&login("admin@example.com", "Admin@123")), Ok(()));
    assert_eq!(
        validate_login(&login("nope", "")),
        Err(vec![
            "email must be a valid email address".to_string(),
            "password is required".to_string()
        ])
    );
    assert_eq!(
        validate_login(&login("admin@example.com", "")),
        Err(vec!["password is required".to_string()])
    );
    assert_eq!(validate_login(&login("admin@example.com", " ")), Ok(()));
}

#[test]
fn verify_2fa_validation_trims_whitespace() {
    let ok = Verify2faRequest { login_challenge_id: "abc".to_string(), code: "123456".to_string() };
    assert_eq!(validate_verify_2fa(&ok), Ok(()));
    let blank = Verify2faRequest {
        login_challenge_id: " \t\n".to_string(),
        code: "\u{3000}\u{00A0}".to_string(),
    };
    assert_eq!(
        validate_verify_2fa(&blank),
        Err(vec!["login_challenge_id is required".to_string(), "code is required".to_string()])
    );
    let empty_code = Verify2faRequest { login_challenge_id: "x".to_string(), code: String::new() };
    assert_eq!(validate_verify_2fa(&empty_code), Err(vec!["code is required".to_string()]));
}

fn task(title: &str, description: &str) -> CreateTaskRequest {
    CreateTaskRequest {
        title: title.to_string(),
        description: description.to_string(),
        status: TaskStatus::Todo,
        priority: TaskPriority::High,
    }
}

#[test]
fn create_task_validation() {
    assert_eq!(validate_create_task(&task("Write report", "Quarterly")), Ok(()));
    assert_eq!(
        validate_create_task(&task("  ", "")),
        Err(vec!["title is required".to_string(), "description is required".to_string()])
    );
    assert_eq!(
        validate_create_task(&task("t", " \r ")),
        Err(vec!["description is required".to_string()])
    );
}

#[test]
fn assign_tasks_validation() {
    let ok = AssignTasksRequest {
        task_ids: vec!["x".to_string()],
        assignee_email: "jamesbond@example.com".to_string(),
    };
    assert_eq!(validate_assign_tasks(&ok), Ok(()));
    let bad = AssignTasksRequest { task_ids: vec![], assignee_email: "bond".to_string() };
    assert_eq!(
        validate_assign_tasks(&bad),
        Err(vec![
            "task_ids cannot be empty".to_string(),
            "assignee_email must be a valid email address".to_string()
        ])
    );
}
