//! Shared, domain-agnostic helpers: clock, cache keys, token claims, text
//! handling and constants.
pub mod cache;
pub mod clock;
pub mod constants;
pub mod jwt;
pub mod text;
