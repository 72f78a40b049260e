//! Cache keys and counter policy for the Redis-backed caches.
use vstd::prelude::*;

use crate::models::object_id::ObjectId;

verus! {

/// `tasks:view:<hex id>`, the key of a user's `view-my-tasks` payload.
pub open spec fn user_tasks_key_spec(user_id: ObjectId) -> Seq<char> {
    "tasks:view:"@ + user_id.hex()
}

/// Per-user cache key for the `view-my-tasks` payload.
pub fn user_tasks_key(user_id: &ObjectId) -> (key: String)
    ensures
        key@ == user_tasks_key_spec(*user_id),
{
    let prefix = crate::utils::constants::TASKS_VIEW_CACHE_PREFIX.to_string();
    let hex = user_id.to_hex();
    prefix.concat(hex.as_str())
}

/// A counter gets its expiry on its first increment only.
pub fn needs_expiry(count: u64) -> (r: bool)
    ensures
        r == (count == 1),
{
    count == 1
}

/// Different users never share a task-view cache key.
pub proof fn law_user_tasks_key_injective(a: ObjectId, b: ObjectId)
    requires
        user_tasks_key_spec(a) == user_tasks_key_spec(b),
    ensures
        a == b,
{
    let p = "tasks:view:"@;
    assert(a.hex() =~= user_tasks_key_spec(a).skip(p.len() as int));
    assert(b.hex() =~= user_tasks_key_spec(b).skip(p.len() as int));
    crate::models::object_id::law_object_id_hex_round_trip(a);
    crate::models::object_id::law_object_id_hex_round_trip(b);
}

} // verus!
