//! Domain data structures: users, tasks, login challenges, sessions and the
//! request/response shapes of the API.
pub mod auth;
pub mod dtos;
pub mod object_id;
pub mod session;
pub mod task;
pub mod user;
