//! Tasks and their workflow attributes.
use vstd::prelude::*;

use crate::models::object_id::ObjectId;

verus! {

/// Where a task stands.
#[derive(Clone, Copy, Debug, PartialEq, Eq, Structural)]
pub enum TaskStatus {
    Todo,
    InProgress,
    Done,
}

/// How urgent a task is.
#[derive(Clone, Copy, Debug, PartialEq, Eq, Structural)]
pub enum TaskPriority {
    High,
    Medium,
    Low,
}

/// The name a status has in the API and the database.
pub open spec fn status_name(status: TaskStatus) -> Seq<char> {
    match status {
        TaskStatus::Todo => "todo"@,
        TaskStatus::InProgress => "inprogress"@,
        TaskStatus::Done => "done"@,
    }
}

/// The name a priority has in the API and the database.
pub open spec fn priority_name(priority: TaskPriority) -> Seq<char> {
    match priority {
        TaskPriority::High => "high"@,
        TaskPriority::Medium => "medium"@,
        TaskPriority::Low => "low"@,
    }
}

/// The stored name of a status.
pub fn status_as_str(status: &TaskStatus) -> (s: &'static str)
    ensures
        s@ == status_name(*status),
{
    match status {
        TaskStatus::Todo => "todo",
        TaskStatus::InProgress => "inprogress",
        TaskStatus::Done => "done",
    }
}

/// The stored name of a priority.
pub fn priority_as_str(priority: &TaskPriority) -> (s: &'static str)
    ensures
        s@ == priority_name(*priority),
{
    match priority {
        TaskPriority::High => "high",
        TaskPriority::Medium => "medium",
        TaskPriority::Low => "low",
    }
}

impl TaskStatus {
    /// The stored name of the status.
    pub fn as_str(&self) -> (s: &'static str)
        ensures
            s@ == status_name(*self),
    {
        status_as_str(self)
    }
}

impl TaskPriority {
    /// The stored name of the priority.
    pub fn as_str(&self) -> (s: &'static str)
        ensures
            s@ == priority_name(*self),
    {
        priority_as_str(self)
    }
}

/// A task as stored in the `tasks` collection; times are milliseconds since
/// the Unix epoch.
#[derive(Debug, Clone)]
pub struct Task {
    pub id: Option<ObjectId>,
    pub title: String,
    pub description: String,
    pub status: TaskStatus,
    pub priority: TaskPriority,
    pub created_by_id: ObjectId,
    pub assigned_to_id: Option<ObjectId>,
    pub created_at: i64,
    pub updated_at: i64,
}

} // verus!
