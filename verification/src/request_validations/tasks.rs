//! Validation of the task creation and assignment requests.
use vstd::prelude::*;

use crate::errors::texts;

use crate::models::dtos::{AssignTasksRequest, CreateTaskRequest};
use crate::request_validations::auth::finish;
use crate::request_validations::common::{
    is_valid_email, is_valid_email_spec, problem_if, reports,
};
use crate::utils::text::{is_blank, is_blank_spec};

verus! {

/// The problems of a task creation request, in the order they are reported.
pub open spec fn create_task_problems(title: Seq<char>, description: Seq<char>) -> Seq<
    Seq<char>,
> {
    problem_if(is_blank_spec(title), "title is required"@) + problem_if(
        is_blank_spec(description),
        "description is required"@,
    )
}

/// The problems of an assignment request, in the order they are reported.
pub open spec fn assign_tasks_problems(task_count: nat, assignee_email: Seq<char>) -> Seq<
    Seq<char>,
> {
    problem_if(task_count == 0, "task_ids cannot be empty"@) + problem_if(
        !is_valid_email_spec(assignee_email),
        "assignee_email must be a valid email address"@,
    )
}

/// Validates a task creation request, reporting every problem at once.
pub fn validate_create_task(req: &CreateTaskRequest) -> (r: Result<(), Vec<String>>)
    ensures
        reports(r, create_task_problems(req.title@, req.description@)),
{
    let mut errors: Vec<String> = Vec::new();
    if is_blank(req.title.as_str()) {
        errors.push("title is required".to_string());
    }
    if is_blank(req.description.as_str()) {
        errors.push("description is required".to_string());
    }
    assert(texts(errors@) =~= create_task_problems(req.title@, req.description@));
    finish(errors)
}

/// Validates an assignment request, reporting every problem at once.
pub fn validate_assign_tasks(req: &AssignTasksRequest) -> (r: Result<(), Vec<String>>)
    ensures
        reports(r, assign_tasks_problems(req.task_ids@.len(), req.assignee_email@)),
{
    let mut errors: Vec<String> = Vec::new();
    if req.task_ids.len() == 0 {
        errors.push("task_ids cannot be empty".to_string());
    }
    if !is_valid_email(req.assignee_email.as_str()) {
        errors.push("assignee_email must be a valid email address".to_string());
    }
    assert(texts(errors@) =~= assign_tasks_problems(req.task_ids@.len(), req.assignee_email@));
    finish(errors)
}

} // verus!
