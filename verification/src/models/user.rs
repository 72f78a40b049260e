//! Accounts and their roles.
use vstd::prelude::*;

use crate::models::object_id::ObjectId;
use crate::utils::text::{lowercase_text, text_equals, to_lowercase};

verus! {

/// What an account may do: admins manage tasks, staff work on them.
#[derive(Clone, Copy, Debug, PartialEq, Eq, Structural)]
pub enum UserRole {
    Admin,
    Staff,
}

/// The name under which a role is stored and carried in tokens.
pub open spec fn role_name(role: UserRole) -> Seq<char> {
    match role {
        UserRole::Admin => "admin"@,
        UserRole::Staff => "staff"@,
    }
}

/// The role that a stored or token role name denotes.
pub open spec fn role_from_name(s: Seq<char>) -> Option<UserRole> {
    if s == "admin"@ {
        Some(UserRole::Admin)
    } else if s == "staff"@ {
        Some(UserRole::Staff)
    } else {
        None
    }
}

/// The form under which an email address is looked up: lower-cased, so
/// that addresses match whatever their case.
pub fn email_lookup_key(email: &str) -> (key: String)
    ensures
        key@ == lowercase_text(email@),
{
    to_lowercase(email)
}

impl UserRole {
    /// The stored name of the role.
    pub fn as_str(&self) -> (s: &'static str)
        ensures
            s@ == role_name(*self),
    {
        match self {
            UserRole::Admin => "admin",
            UserRole::Staff => "staff",
        }
    }

    /// The role with the stored name `s`, if any.
    pub fn from_str(s: &str) -> (r: Option<UserRole>)
        ensures
            r == role_from_name(s@),
    {
        parse_role(s)
    }
}

/// Reads a role name: `"admin"` or `"staff"`, nothing else.
pub fn parse_role(role: &str) -> (r: Option<UserRole>)
    ensures
        r == role_from_name(role@),
{
    if text_equals(role, "admin") {
        Some(UserRole::Admin)
    } else if text_equals(role, "staff") {
        Some(UserRole::Staff)
    } else {
        None
    }
}

/// Reading a role's name gives the role back.
pub proof fn law_role_name_round_trip(role: UserRole)
    ensures
        role_from_name(role_name(role)) == Some(role),
{
    reveal_strlit("admin");
    reveal_strlit("staff");
    assert("admin"@ != "staff"@) by {
        assert("admin"@[0] != "staff"@[0]);
    }
}

/// A user account as stored in the `users` collection; times are milliseconds
/// since the Unix epoch.
#[derive(Debug, Clone)]
pub struct User {
    pub id: Option<ObjectId>,
    pub full_name: String,
    pub email: String,
    pub password_hash: String,
    pub role: UserRole,
    pub created_at: i64,
    pub updated_at: i64,
}

} // verus!
