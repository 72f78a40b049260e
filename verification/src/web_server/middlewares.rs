//! Rate limiting and session authentication.
pub mod rate_limit;
pub mod session;
