//! Two-factor login challenges and the audit log of code deliveries.
use vstd::prelude::*;

use crate::models::object_id::ObjectId;

verus! {

/// One-time 2FA challenge created at login and consumed at verification.
/// The code is kept only as an Argon2 hash; times are milliseconds since the
/// Unix epoch.
#[derive(Debug, Clone)]
pub struct LoginChallenge {
    pub id: Option<ObjectId>,
    pub user_id: ObjectId,
    pub code_hash: String,
    pub expires_at: i64,
    pub used_at: Option<i64>,
    pub created_at: i64,
}

/// Audit record of a 2FA code delivery. It holds only a masked form of the code.
#[derive(Debug, Clone)]
pub struct EmailLog {
    pub id: Option<ObjectId>,
    pub to_email: String,
    pub purpose: String,
    pub masked_code: String,
    pub challenge_id: ObjectId,
    pub created_at: i64,
}

} // verus!
