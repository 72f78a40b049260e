//! Creating a task (the caller has passed the admin check).
use vstd::prelude::*;

use crate::models::dtos::CreateTaskRequest;
use crate::models::object_id::ObjectId;
use crate::models::session::AuthUser;
use crate::models::task::Task;
use crate::utils::clock::{db_clock_reading, read_db_clock};

verus! {

/// The document of a task created by `author` from `req` at Unix millisecond
/// `now`: unassigned, with both timestamps at `now`.
pub open spec fn is_new_task(t: Task, author: ObjectId, req: CreateTaskRequest, now: int) -> bool {
    &&& t.id is None
    &&& t.title == req.title
    &&& t.description == req.description
    &&& t.status == req.status
    &&& t.priority == req.priority
    &&& t.created_by_id == author
    &&& t.assigned_to_id is None
    &&& t.created_at == now
    &&& t.updated_at == now
}

/// The task created by `auth_user` from `req` at Unix millisecond `now`.
pub fn new_task_at(auth_user: &AuthUser, req: &CreateTaskRequest, now: i64) -> (t: Task)
    ensures
        is_new_task(t, auth_user.id, *req, now as int),
{
    Task {
        id: None,
        title: req.title.clone(),
        description: req.description.clone(),
        status: req.status,
        priority: req.priority,
        created_by_id: auth_user.id,
        assigned_to_id: None,
        created_at: now,
        updated_at: now,
    }
}

/// The document of a task created now by `auth_user`, stamped with the
/// current Unix millisecond.
pub fn new_task(auth_user: &AuthUser, req: &CreateTaskRequest) -> (t: Task)
    ensures
        exists|now: i64| #[trigger] db_clock_reading(now) && is_new_task(t, auth_user.id, *req, now as int),
{
    let now = read_db_clock();
    new_task_at(auth_user, req, now)
}

/// A created task is stamped with the current Unix millisecond: both its
/// creation and update times are the instant the clock was read, and it
/// carries the request's fields, its author and no assignee.
pub proof fn law_new_task_stamped_now(auth_user: AuthUser, req: CreateTaskRequest, t: Task)
    requires
        call_ensures(new_task, (&auth_user, &req), t),
    ensures
        exists|now: i64|
            {
                &&& #[trigger] db_clock_reading(now)
                &&& t.created_at == now
                &&& t.updated_at == now
                &&& t.title == req.title && t.description == req.description
                &&& t.status == req.status && t.priority == req.priority
                &&& t.created_by_id == auth_user.id && t.assigned_to_id is None && t.id is None
            },
{
}

} // verus!
