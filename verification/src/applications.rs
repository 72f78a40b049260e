//! Shared application store.
pub mod application_store;
