//! Assigning tasks to a user, and the cache entries that an assignment
//! makes stale.
use vstd::prelude::*;

use crate::errors::{ApiError, ApiErrorView};
use crate::models::dtos::AssignTasksRequest;
use crate::models::object_id::{is_object_id_text, object_id_from_text, ObjectId};
use crate::models::task::Task;
use crate::models::user::User;
use crate::utils::cache::{user_tasks_key, user_tasks_key_spec};
use crate::utils::clock::{db_clock_reading, read_db_clock};

verus! {

/// Refuses an assignment that names no task.
pub fn check_task_ids_present(req: &AssignTasksRequest) -> (r: Result<(), ApiError>)
    ensures
        r is Ok <==> req.task_ids@.len() > 0,
        r matches Err(e) ==> e@ == ApiErrorView::BadRequest("task_ids cannot be empty"@),
{
    if req.task_ids.len() == 0 {
        Err(ApiError::BadRequest("task_ids cannot be empty".to_string()))
    } else {
        Ok(())
    }
}

/// Resolves the assignee found under the (lower-cased) assignee email.
pub fn resolve_assignee(found: &Option<User>) -> (r: Result<ObjectId, ApiError>)
    ensures
        found is None ==> (r matches Err(e) && e@ == ApiErrorView::NotFound(
            "assignee user not found"@,
        )),
        found matches Some(u) ==> (u.id is None ==> (r matches Err(e) && e@
            == ApiErrorView::Internal("assignee id missing"@))),
        found matches Some(u) ==> (u.id matches Some(id) ==> r == Ok::<ObjectId, ApiError>(id)),
{
    match found {
        None => Err(ApiError::NotFound("assignee user not found".to_string())),
        Some(u) => match u.id {
            None => Err(ApiError::Internal("assignee id missing".to_string())),
            Some(id) => Ok(id),
        },
    }
}

/// The position of the first text that is not an object id, or -1.
pub open spec fn first_invalid_id(raw: Seq<String>) -> int
    decreases raw.len(),
{
    if raw.len() == 0 {
        -1
    } else if first_invalid_id(raw.drop_last()) >= 0 {
        first_invalid_id(raw.drop_last())
    } else if object_id_from_text(raw.last()@) is None {
        raw.len() - 1
    } else {
        -1
    }
}

/// Every text of `raw` is an object id (24 hexadecimal digits of either
/// case) exactly when none is the first invalid one.
proof fn lemma_first_invalid_id_none(raw: Seq<String>)
    ensures
        first_invalid_id(raw) < 0 <==> forall|i: int|
            0 <= i < raw.len() ==> is_object_id_text(#[trigger] raw[i]@),
        first_invalid_id(raw) < raw.len(),
        first_invalid_id(raw) >= 0 ==> !is_object_id_text(raw[first_invalid_id(raw)]@),
    decreases raw.len(),
{
    if raw.len() > 0 {
        let init = raw.drop_last();
        lemma_first_invalid_id_none(init);
        assert forall|i: int| 0 <= i < init.len() implies init[i] == raw[i] by {}
        if first_invalid_id(raw) < 0 {
            assert forall|i: int| 0 <= i < raw.len() implies is_object_id_text(#[trigger] raw[i]@) by {
                if i < init.len() {
                    assert(is_object_id_text(init[i]@));
                }
            }
        } else if first_invalid_id(init) < 0 {
            assert(!is_object_id_text(raw[raw.len() - 1]@));
        } else {
            let k = first_invalid_id(init);
            assert(raw[k] == init[k]);
        }
    }
}

/// Parses every task id; the first one that is not an object id is refused.
/// The list is accepted exactly when every text is 24 hexadecimal digits.
pub fn parse_task_ids(raw: &Vec<String>) -> (r: Result<Vec<ObjectId>, ApiError>)
    ensures
        r is Ok <==> forall|i: int| 0 <= i < raw@.len() ==> is_object_id_text(#[trigger] raw@[i]@),
        first_invalid_id(raw@) < 0 ==> (r matches Ok(ids) && ids@.len() == raw@.len() && forall|
            i: int,
        |
            0 <= i < raw@.len() ==> object_id_from_text(#[trigger] raw@[i]@) == Some(ids@[i])),
        first_invalid_id(raw@) >= 0 ==> (r matches Err(e) && e@ == ApiErrorView::BadRequest(
            "invalid task id: "@ + raw@[first_invalid_id(raw@)]@,
        )),
{
    proof {
        lemma_first_invalid_id_none(raw@);
    }
    let mut ids: Vec<ObjectId> = Vec::new();
    let mut i: usize = 0;
    while i < raw.len()
        invariant
            i <= raw@.len(),
            ids@.len() == i,
            first_invalid_id(raw@.take(i as int)) < 0,
            forall|j: int| 0 <= j < i ==> object_id_from_text(#[trigger] raw@[j]@) == Some(ids@[j]),
        decreases raw.len() - i,
    {
        assert(raw@.take(i + 1).drop_last() =~= raw@.take(i as int));
        match ObjectId::parse_str(raw[i].as_str()) {
            None => {
                proof {
                    lemma_first_invalid_id_prefix(raw@, i + 1);
                }
                let message = "invalid task id: ".to_string().concat(raw[i].as_str());
                return Err(ApiError::BadRequest(message));
            },
            Some(id) => {
                ids.push(id);
            },
        }
        i += 1;
    }
    assert(raw@.take(i as int) =~= raw@);
    Ok(ids)
}

/// Once some prefix holds an invalid id, the first invalid position is fixed.
proof fn lemma_first_invalid_id_prefix(raw: Seq<String>, k: int)
    requires
        0 <= k <= raw.len(),
        first_invalid_id(raw.take(k)) >= 0,
    ensures
        first_invalid_id(raw) == first_invalid_id(raw.take(k)),
    decreases raw.len(),
{
    if k < raw.len() {
        assert(raw.drop_last().take(k) =~= raw.take(k));
        lemma_first_invalid_id_prefix(raw.drop_last(), k);
    } else {
        assert(raw.take(k) =~= raw);
    }
}

/// What an accepted assignment writes: the tasks, their new assignee, the
/// update time, and the users whose cached task view it makes stale.
#[derive(Debug)]
pub struct Assignment {
    pub task_ids: Vec<ObjectId>,
    pub assignee: ObjectId,
    pub updated_at: i64,
    pub stale_users: Vec<ObjectId>,
}

/// Accepts the assignment of the tasks `ids` to `assignee` when every
/// requested id names an existing task (`existing` holds the tasks found for
/// `ids`), stamped with the current time.
pub fn plan_assignment(assignee: ObjectId, ids: Vec<ObjectId>, existing: &Vec<Task>) -> (r: Result<
    Assignment,
    ApiError,
>)
    ensures
        r is Ok <==> existing@.len() == ids@.len(),
        r matches Err(e) ==> e@ == ApiErrorView::BadRequest(
            "one or more task_ids do not exist"@,
        ),
        r matches Ok(a) ==> a.task_ids@ == ids@ && a.assignee == assignee && a.stale_users@
            == stale_views(assignee, previous_assignees(existing@)),
        r matches Ok(a) ==> db_clock_reading(a.updated_at),
{
    if existing.len() != ids.len() {
        return Err(ApiError::BadRequest("one or more task_ids do not exist".to_string()));
    }
    let updated_at = read_db_clock();
    let stale_users = users_to_invalidate(assignee, existing);
    Ok(Assignment { task_ids: ids, assignee, updated_at, stale_users })
}

/// The users whose cached task view an assignment to `assignee` makes
/// stale, given the previous assignees of the affected tasks: the assignee
/// first, then each previous assignee at its first appearance.
pub open spec fn stale_views(assignee: ObjectId, previous: Seq<Option<ObjectId>>) -> Seq<ObjectId>
    decreases previous.len(),
{
    if previous.len() == 0 {
        seq![assignee]
    } else {
        let earlier = stale_views(assignee, previous.drop_last());
        match previous.last() {
            Some(p) => if earlier.contains(p) {
                earlier
            } else {
                earlier.push(p)
            },
            None => earlier,
        }
    }
}

/// The previous assignees of tasks, in order.
pub open spec fn previous_assignees(tasks: Seq<Task>) -> Seq<Option<ObjectId>> {
    tasks.map_values(|t: Task| t.assigned_to_id)
}

/// Whether `id` occurs in `ids`.
fn contains_id(ids: &Vec<ObjectId>, id: ObjectId) -> (r: bool)
    ensures
        r == ids@.contains(id),
{
    let mut i: usize = 0;
    while i < ids.len()
        invariant
            i <= ids@.len(),
            forall|j: int| 0 <= j < i ==> ids@[j] != id,
        decreases ids.len() - i,
    {
        if ids[i] == id {
            return true;
        }
        i += 1;
    }
    false
}

/// The users whose task view must be invalidated after assigning `existing`
/// to `assignee`.
pub fn users_to_invalidate(assignee: ObjectId, existing: &Vec<Task>) -> (users: Vec<ObjectId>)
    ensures
        users@ == stale_views(assignee, previous_assignees(existing@)),
{
    let mut users: Vec<ObjectId> = Vec::new();
    users.push(assignee);
    let ghost previous = previous_assignees(existing@);
    let mut i: usize = 0;
    assert(users@ =~= stale_views(assignee, previous.take(0)));
    while i < existing.len()
        invariant
            i <= existing@.len(),
            previous == previous_assignees(existing@),
            users@ == stale_views(assignee, previous.take(i as int)),
        decreases existing.len() - i,
    {
        assert(previous.take(i + 1).drop_last() =~= previous.take(i as int));
        assert(previous.take(i + 1).last() == existing@[i as int].assigned_to_id);
        if let Some(prev) = existing[i].assigned_to_id {
            if !contains_id(&users, prev) {
                users.push(prev);
            }
        }
        i += 1;
    }
    assert(previous.take(i as int) =~= previous);
    users
}

/// The task-view cache keys of `users`, in order.
pub open spec fn stale_keys(users: Seq<ObjectId>) -> Seq<Seq<char>> {
    users.map_values(|u: ObjectId| user_tasks_key_spec(u))
}

/// The task-view cache keys of `users`.
pub fn stale_cache_keys(users: &Vec<ObjectId>) -> (keys: Vec<String>)
    ensures
        keys@.map_values(|k: String| k@) == stale_keys(users@),
        keys@.len() == users@.len(),
        forall|i: int| 0 <= i < users@.len() ==> (#[trigger] keys@[i])@ == user_tasks_key_spec(users@[i]),
{
    let mut keys: Vec<String> = Vec::new();
    let mut i: usize = 0;
    while i < users.len()
        invariant
            i <= users@.len(),
            keys@.len() == i,
            forall|j: int| 0 <= j < i ==> (#[trigger] keys@[j])@ == user_tasks_key_spec(users@[j]),
        decreases users.len() - i,
    {
        keys.push(user_tasks_key(&users[i]));
        i += 1;
    }
    assert(keys@.map_values(|k: String| k@) =~= stale_keys(users@));
    keys
}

/// A cache of task views (key to stored payload) after the keys `keys` were
/// deleted.
pub open spec fn after_deleting(cache: Map<Seq<char>, Seq<char>>, keys: Seq<Seq<char>>) -> Map<
    Seq<char>,
    Seq<char>,
> {
    cache.remove_keys(keys.to_set())
}

/// An assignment invalidates exactly the view of the assignee and of every
/// previous assignee of the affected tasks, each once, the assignee first.
pub proof fn law_assignment_invalidates_affected_views(
    assignee: ObjectId,
    previous: Seq<Option<ObjectId>>,
)
    ensures
        stale_views(assignee, previous).len() >= 1,
        stale_views(assignee, previous)[0] == assignee,
        stale_views(assignee, previous).no_duplicates(),
        forall|u: ObjectId|
            stale_views(assignee, previous).contains(u) <==> (u == assignee || previous.contains(
                Some(u),
            )),
    decreases previous.len(),
{
    let views = stale_views(assignee, previous);
    if previous.len() == 0 {
        assert forall|u: ObjectId|
            views.contains(u) <==> (u == assignee || previous.contains(Some(u))) by {
            if views.contains(u) {
                assert(views[0] == assignee);
            }
            if u == assignee {
                assert(views[0] == u);
            }
        }
    } else {
        let init = previous.drop_last();
        law_assignment_invalidates_affected_views(assignee, init);
        let earlier = stale_views(assignee, init);
        assert forall|u: ObjectId|
            previous.contains(Some(u)) <==> (init.contains(Some(u)) || previous.last() == Some(
                u,
            )) by {
            if init.contains(Some(u)) {
                let j = choose|j: int| 0 <= j < init.len() && init[j] == Some(u);
                assert(previous[j] == Some(u));
            }
            if previous.last() == Some(u) {
                assert(previous[previous.len() - 1] == Some(u));
            }
            if previous.contains(Some(u)) {
                let j = choose|j: int| 0 <= j < previous.len() && previous[j] == Some(u);
                if j < init.len() {
                    assert(init[j] == Some(u));
                }
            }
        }
        match previous.last() {
            Some(p) => {
                if !earlier.contains(p) {
                    assert(views == earlier.push(p));
                    assert forall|u: ObjectId|
                        views.contains(u) <==> (earlier.contains(u) || u == p) by {
                        crate::models::object_id::lemma_push_contains_id(earlier, p, u);
                    }
                } else {
                    assert(views == earlier);
                }
            },
            None => {
                assert(views == earlier);
            },
        }
    }
}

/// After an assignment deletes the stale keys, no cached view is left for
/// the assignee or for any previous assignee of the affected tasks, so their
/// next `view-my-tasks` is built afresh from the stored tasks; every other
/// user's cached view is kept as it was.
pub proof fn law_no_stale_view_after_assignment(
    cache: Map<Seq<char>, Seq<char>>,
    assignee: ObjectId,
    previous: Seq<Option<ObjectId>>,
    u: ObjectId,
)
    ensures
        ({
            let after = after_deleting(cache, stale_keys(stale_views(assignee, previous)));
            &&& (u == assignee || previous.contains(Some(u))) ==> !after.dom().contains(
                user_tasks_key_spec(u),
            )
            &&& !(u == assignee || previous.contains(Some(u))) ==> (after.dom().contains(
                user_tasks_key_spec(u),
            ) == cache.dom().contains(user_tasks_key_spec(u)) && (cache.dom().contains(
                user_tasks_key_spec(u),
            ) ==> after[user_tasks_key_spec(u)] == cache[user_tasks_key_spec(u)]))
        }),
{
    let views = stale_views(assignee, previous);
    let keys = stale_keys(views);
    let k = user_tasks_key_spec(u);
    let after = after_deleting(cache, keys);
    assert(after.dom().contains(k) == (cache.dom().contains(k) && !keys.to_set().contains(k)));
    if after.dom().contains(k) {
        assert(after[k] == cache[k]);
    }
    law_assignment_invalidates_affected_views(assignee, previous);
    if u == assignee || previous.contains(Some(u)) {
        assert(views.contains(u));
        let i = choose|i: int| 0 <= i < views.len() && views[i] == u;
        assert(keys[i] == k);
        assert(keys.to_set().contains(k));
    } else {
        if keys.to_set().contains(k) {
            let i = choose|i: int| 0 <= i < keys.len() && keys[i] == k;
            crate::utils::cache::law_user_tasks_key_injective(views[i], u);
            assert(views.contains(u));
        }
        assert(!keys.to_set().contains(k));
    }
}

/// A list of task ids is accepted exactly when every text is 24 characters,
/// each a decimal digit or a letter `a`-`f` of either case; the ids then come
/// in the order of the texts.
pub proof fn law_task_ids_accepted_iff_hexadecimal(raw: Vec<String>, r: Result<Vec<ObjectId>, ApiError>)
    requires
        call_ensures(parse_task_ids, (&raw,), r),
    ensures
        r is Ok <==> forall|i: int|
            0 <= i < raw@.len() ==> {
                &&& (#[trigger] raw@[i])@.len() == 24
                &&& forall|k: int|
                    0 <= k < raw@[i]@.len() ==> {
                        let d = (#[trigger] raw@[i]@[k]) as u32;
                        ||| 48 <= d <= 57
                        ||| 97 <= d <= 102
                        ||| 65 <= d <= 70
                    }
            },
        r matches Ok(ids) ==> ids@.len() == raw@.len() && forall|i: int|
            0 <= i < raw@.len() ==> object_id_from_text(#[trigger] raw@[i]@) == Some(ids@[i]),
{
}

} // verus!
