//! Access-token claims and the authenticated caller.
use vstd::prelude::*;

use crate::models::object_id::ObjectId;
use crate::models::user::UserRole;

verus! {

/// The payload of an access token; `exp` and `iat` are Unix seconds.
#[derive(Debug, Clone)]
pub struct JwtClaims {
    pub sub: String,
    pub email: String,
    pub role: String,
    pub exp: usize,
    pub iat: usize,
}

/// The caller resolved from a verified access token.
#[derive(Debug, Clone)]
pub struct AuthUser {
    pub id: ObjectId,
    pub email: String,
    pub role: UserRole,
}

} // verus!
