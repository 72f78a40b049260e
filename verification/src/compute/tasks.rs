//! Task creation, assignment and the per-user task view.
pub mod assign_tasks;
pub mod create_task;
pub mod view_my_tasks;
