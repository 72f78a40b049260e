use task_auth::compute::tasks::assign_tasks::{
    check_task_ids_present, parse_task_ids, plan_assignment, resolve_assignee, stale_cache_keys,
    users_to_invalidate,
};
use task_auth::compute::tasks::create_task::{new_task, new_task_at};
use task_auth::compute::tasks::view_my_tasks::{build_view, serve_cached, sort_by_created};
use task_auth::errors::ApiError;
use task_auth::models::dtos::{AssignTasksRequest, CreateTaskRequest};
use task_auth::models::object_id::ObjectId;
use task_auth::models::session::AuthUser;
use task_auth::models::task::{Task, TaskPriority, TaskStatus};
use task_auth::models::user::{User, UserRole};

fn oid(n: u64) -> ObjectId {
    ObjectId { high: 0x6600_0000, low: n }
}

fn task(n: u64, created_at: i64, assigned: Option<ObjectId>) -> Task {
    Task {
        id: Some(oid(n)),
        title: format!("task {n}"),
        description: "d".to_string(),
        status: TaskStatus::Todo,
        priority: TaskPriority::Medium,
        created_by_id: oid(100),
        assigned_to_id: assigned,
        created_at,
        updated_at: created_at,
    }
}

fn admin() -> AuthUser {
    AuthUser { id: oid(100), email: "admin@example.com".to_string(), role: UserRole::Admin }
}

#[test]
fn new_task_document() {
    let req = CreateTaskRequest {
        title: "Validation Task 1".to_string(),
        description: "Created from e2e test".to_string(),
        status: TaskStatus::InProgress,
        priority: TaskPriority::Low,
    };
    let t = new_task_at(&admin(), &req, 123);
    assert_eq!(t.id, None);
    assert_eq!(t.title, "Validation Task 1");
    assert_eq!(t.description, "Created from e2e test");
    assert_eq!(t.status, TaskStatus::InProgress);
    assert_eq!(t.priority, TaskPriority::Low);
    assert_eq!(t.created_by_id, oid(100));
    assert_eq!(t.assigned_to_id, None);
    assert_eq!((t.created_at, t.updated_at), (123, 123));
    let now = new_task(&admin(), &req);
    assert_eq!(now.created_at, now.updated_at);
}

#[test]
fn assignment_request_checks() {
    let empty = AssignTasksRequest { task_ids: vec![], assignee_email: "a@b.c".to_string() };
    assert_eq!(
        check_task_ids_present(&empty),
        Err(ApiError::BadRequest("task_ids cannot be empty".to_string()))
    );
    let one = AssignTasksRequest { task_ids: vec!["x".to_string()], assignee_email: "a@b.c".to_string() };
    assert_eq!(check_task_ids_present(&one), Ok(()));

    assert_eq!(
        resolve_assignee(&None),
        Err(ApiError::NotFound("assignee user not found".to_string()))
    );
    let mut u = User {
        id: Some(oid(5)),
        full_name: "James Bond".to_string(),
        email: "jamesbond@example.com".to_string(),
        password_hash: "h".to_string(),
        role: UserRole::Staff,
        created_at: 0,
        updated_at: 0,
    };
    assert_eq!(resolve_assignee(&Some(u.clone())), Ok(oid(5)));
    u.id = None;
    assert_eq!(
        resolve_assignee(&Some(u)),
        Err(ApiError::Internal("assignee id missing".to_string()))
    );
}

#[test]
fn task_id_parsing_reports_first_invalid() {
    let raw = vec![
        "660000000000000000000001".to_string(),
        "bad-one".to_string(),
        "bad-two".to_string(),
    ];
    assert_eq!(
        parse_task_ids(&raw),
        Err(ApiError::BadRequest("invalid task id: bad-one".to_string()))
    );
    let raw = vec!["660000000000000000000001".to_string(), "660000000000000000000002".to_string()];
    assert_eq!(parse_task_ids(&raw), Ok(vec![oid(1), oid(2)]));
}

#[test]
fn all_requested_tasks_must_exist() {
    let ids = vec![oid(1), oid(2)];
    let plan = plan_assignment(oid(9), ids.clone(), &vec![task(1, 0, Some(oid(3))), task(2, 0, None)])
        .expect("all tasks exist");
    assert_eq!(plan.task_ids, ids);
    assert_eq!(plan.assignee, oid(9));
    assert_eq!(plan.stale_users, vec![oid(9), oid(3)]);
    assert!(plan.updated_at > 1_600_000_000_000);
    assert_eq!(
        plan_assignment(oid(9), ids, &vec![task(1, 0, None)]).unwrap_err(),
        ApiError::BadRequest("one or more task_ids do not exist".to_string())
    );
}

#[test]
fn invalidates_assignee_and_previous_assignees_once() {
    let assignee = oid(50);
    let existing = vec![
        task(1, 0, Some(oid(7))),
        task(2, 0, None),
        task(3, 0, Some(assignee)),
        task(4, 0, Some(oid(8))),
        task(5, 0, Some(oid(7))),
    ];
    let users = users_to_invalidate(assignee, &existing);
    assert_eq!(users, vec![assignee, oid(7), oid(8)]);
    let keys = stale_cache_keys(&users);
    assert_eq!(
        keys,
        vec![
            "tasks:view:660000000000000000000032".to_string(),
            "tasks:view:660000000000000000000007".to_string(),
            "tasks:view:660000000000000000000008".to_string(),
        ]
    );
    assert_eq!(users_to_invalidate(assignee, &vec![]), vec![assignee]);
}

#[test]
fn sort_is_by_creation_and_stable() {
    let tasks = vec![task(1, 30, None), task(2, 10, None), task(3, 30, None), task(4, 20, None), task(5, 10, None)];
    let sorted = sort_by_created(tasks);
    let order: Vec<u64> = sorted.iter().map(|t| t.id.unwrap().low).collect();
    assert_eq!(order, vec![2, 5, 4, 1, 3]);
    assert!(sort_by_created(vec![]).is_empty());
}

#[test]
fn view_lists_tasks_oldest_first() {
    let me = AuthUser { id: oid(9), email: "jamesbond@example.com".to_string(), role: UserRole::Staff };
    let mut untitled = task(3, 5, Some(oid(9)));
    untitled.id = None;
    untitled.status = TaskStatus::Done;
    untitled.priority = TaskPriority::High;
    let view = build_view(&me, vec![task(1, 20, Some(oid(9))), untitled, task(2, 10, Some(oid(9)))]);
    assert_eq!(view.user.email, "jamesbond@example.com");
    assert_eq!(view.user.role, "staff");
    assert_eq!(view.total_assigned_tasks, 3);
    assert!(!view.cache_hit);
    let ids: Vec<&str> = view.tasks.iter().map(|t| t.id.as_str()).collect();
    assert_eq!(ids, vec!["", "660000000000000000000002", "660000000000000000000001"]);
    assert_eq!(view.tasks[0].status, "done");
    assert_eq!(view.tasks[0].priority, "high");
    assert_eq!(view.tasks[1].status, "todo");
    assert_eq!(view.tasks[1].priority, "medium");
    assert_eq!(view.tasks[2].title, "task 1");
    assert!(view.tasks.iter().all(|t| t.assigned_to == "jamesbond@example.com"));
    let cached = serve_cached(view);
    assert!(cached.cache_hit);
    assert_eq!(cached.total_assigned_tasks, 3);
}
