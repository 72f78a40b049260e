//! The policies of the HTTP middlewares.
pub mod middlewares;
