//! Authentication flows: seeding, password login (issuing a 2FA challenge)
//! and 2FA verification.
pub mod login;
pub mod seed_users;
pub mod verify_2fa;
