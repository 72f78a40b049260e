//! Task-management service core: request validation, credential and
//! two-factor login rules, role checks, task assignment with per-user cache
//! invalidation, and the rate-limit policy.
pub mod applications;
pub mod compute;
pub mod config;
pub mod errors;
pub mod models;
pub mod request_validations;
pub mod security;
pub mod utils;
pub mod web_server;
