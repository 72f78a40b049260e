//! Request and response shapes of the API.
use vstd::prelude::*;

use crate::models::task::{TaskPriority, TaskStatus};
use crate::models::user::UserRole;

verus! {

/// The body of a login request.
#[derive(Debug)]
pub struct LoginRequest {
    pub email: String,
    pub password: String,
}

/// The body of a 2FA verification request.
#[derive(Debug)]
pub struct Verify2faRequest {
    pub login_challenge_id: String,
    pub code: String,
}

/// The query of the development mailbox endpoint.
#[derive(Debug)]
pub struct LatestEmailQuery {
    pub email: Option<String>,
}

/// The body of a task creation request.
#[derive(Debug)]
pub struct CreateTaskRequest {
    pub title: String,
    pub description: String,
    pub status: TaskStatus,
    pub priority: TaskPriority,
}

/// The body of a task assignment request.
#[derive(Debug)]
pub struct AssignTasksRequest {
    pub task_ids: Vec<String>,
    pub assignee_email: String,
}

/// A successful 2FA verification: the issued token and who it is for.
#[derive(Debug)]
pub struct Verify2faOutcome {
    pub access_token: String,
    pub email: String,
    pub role: UserRole,
}

/// One task as listed by `view-my-tasks`.
#[derive(Debug)]
pub struct ViewTaskItem {
    pub id: String,
    pub title: String,
    pub status: String,
    pub priority: String,
    pub assigned_to: String,
}

/// The caller as shown at the head of `view-my-tasks`.
#[derive(Debug)]
pub struct ViewUser {
    pub email: String,
    pub role: String,
}

/// The `view-my-tasks` payload: the caller, their tasks, the task count and
/// whether it was served from the cache.
#[derive(Debug)]
pub struct ViewMyTasksResponse {
    pub user: ViewUser,
    pub tasks: Vec<ViewTaskItem>,
    pub total_assigned_tasks: usize,
    pub cache_hit: bool,
}

} // verus!
