//! Input validation. Every validator collects all field errors at once and
//! fails with the list of them.
pub mod auth;
pub mod common;
pub mod tasks;
