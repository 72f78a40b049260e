//! Business logic: the decisions of authentication, login, 2FA verification
//! and task handling. Database and cache access happen around these calls;
//! each function takes what was read and says what to write or answer.
pub mod auth;
pub mod authorization;
pub mod tasks;
