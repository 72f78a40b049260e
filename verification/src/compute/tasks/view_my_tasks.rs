//! The caller's assigned tasks, ordered by creation time, as served (and
//! cached per user) by `view-my-tasks`.
use vstd::prelude::*;

use crate::models::dtos::{ViewMyTasksResponse, ViewTaskItem, ViewUser};
use crate::models::session::AuthUser;
use crate::models::task::{priority_name, status_name, Task};
use crate::models::user::role_name;

verus! {

broadcast use vstd::seq_lib::group_to_multiset_ensures;

/// `s` with `t` placed after every element created no later than it.
pub open spec fn insert_by_created(s: Seq<Task>, t: Task) -> Seq<Task>
    decreases s.len(),
{
    if s.len() == 0 || s.last().created_at <= t.created_at {
        s.push(t)
    } else {
        insert_by_created(s.drop_last(), t).push(s.last())
    }
}

/// `tasks` ordered by creation time, tasks created at the same instant kept
/// in their original order (`sort_by_key(|t| t.created_at)`).
pub open spec fn sorted_by_created(tasks: Seq<Task>) -> Seq<Task>
    decreases tasks.len(),
{
    if tasks.len() == 0 {
        Seq::empty()
    } else {
        insert_by_created(sorted_by_created(tasks.drop_last()), tasks.last())
    }
}

/// Creation times never decrease along `s`.
pub open spec fn ordered_by_created(s: Seq<Task>) -> bool {
    forall|i: int, j: int| 0 <= i <= j < s.len() ==> s[i].created_at <= s[j].created_at
}

/// Inserting at position `p` (after the last element created no later than
/// `t`) is what `insert_by_created` does.
proof fn lemma_insert_at(s: Seq<Task>, t: Task, p: int)
    requires
        0 <= p <= s.len(),
        p > 0 ==> s[p - 1].created_at <= t.created_at,
        forall|j: int| p <= j < s.len() ==> #[trigger] s[j].created_at > t.created_at,
    ensures
        insert_by_created(s, t) == s.take(p).push(t) + s.skip(p),
    decreases s.len(),
{
    if s.len() == 0 || s.last().created_at <= t.created_at {
        assert(p == s.len());
        assert(s.take(p).push(t) + s.skip(p) =~= s.push(t));
    } else {
        lemma_insert_at(s.drop_last(), t, p);
        assert(s.drop_last().take(p) =~= s.take(p));
        assert(s.take(p).push(t) + s.skip(p) =~= (s.take(p).push(t) + s.drop_last().skip(p)).push(
            s.last(),
        ));
    }
}

/// Inserts `t` after every task created no later than it.
fn insert_in_order(out: &mut Vec<Task>, t: Task)
    ensures
        final(out)@ == insert_by_created(old(out)@, t),
{
    let mut p = out.len();
    while p > 0 && out[p - 1].created_at > t.created_at
        invariant
            p <= out@.len(),
            out@ == old(out)@,
            forall|j: int| p <= j < out@.len() ==> #[trigger] out@[j].created_at > t.created_at,
        decreases p,
    {
        p -= 1;
    }
    proof {
        lemma_insert_at(out@, t, p as int);
    }
    out.insert(p, t);
    assert(out@ =~= old(out)@.take(p as int).push(t) + old(out)@.skip(p as int));
}

/// Orders tasks by creation time, keeping the original order among tasks
/// created at the same instant.
pub fn sort_by_created(tasks: Vec<Task>) -> (sorted: Vec<Task>)
    ensures
        sorted@ == sorted_by_created(tasks@),
{
    let ghost original = tasks@;
    let mut rest = tasks;
    let mut out: Vec<Task> = Vec::new();
    assert(original.take(0) =~= Seq::<Task>::empty());
    while rest.len() > 0
        invariant
            rest@.len() <= original.len(),
            rest@ == original.skip(original.len() - rest@.len()),
            out@ == sorted_by_created(original.take(original.len() - rest@.len())),
        decreases rest@.len(),
    {
        let ghost k = original.len() - rest@.len();
        let t = rest.remove(0);
        assert(original.take(k + 1).drop_last() =~= original.take(k));
        assert(original.take(k + 1).last() == t);
        insert_in_order(&mut out, t);
        assert(rest@ =~= original.skip(k + 1));
    }
    assert(original.take(original.len() as int) =~= original);
    out
}

/// Inserting keeps the order, adds one element and adds `t` to the multiset.
proof fn lemma_insert_keeps_order(s: Seq<Task>, t: Task)
    requires
        ordered_by_created(s),
    ensures
        ordered_by_created(insert_by_created(s, t)),
        insert_by_created(s, t).len() == s.len() + 1,
        insert_by_created(s, t).to_multiset() == s.to_multiset().insert(t),
    decreases s.len(),
{
    vstd::seq_lib::to_multiset_build(s, t);
    if s.len() == 0 || s.last().created_at <= t.created_at {
    } else {
        let init = s.drop_last();
        lemma_insert_keeps_order(init, t);
        let r = insert_by_created(init, t);
        lemma_insert_bounded(init, t, s.last().created_at);
        vstd::seq_lib::to_multiset_build(r, s.last());
        vstd::seq_lib::to_multiset_build(init, s.last());
        vstd::seq_lib::to_multiset_build(init, t);
        assert(init.push(s.last()) =~= s);
        assert(r.push(s.last()).to_multiset() =~= s.to_multiset().insert(t));
    }
}

/// Every element of an insertion stays no later than a bound that the
/// inserted task and all elements respect.
proof fn lemma_insert_bounded(s: Seq<Task>, t: Task, bound: i64)
    requires
        ordered_by_created(s),
        forall|i: int| 0 <= i < s.len() ==> #[trigger] s[i].created_at <= bound,
        t.created_at <= bound,
    ensures
        forall|i: int|
            0 <= i < insert_by_created(s, t).len() ==> #[trigger] insert_by_created(s, t)[i].created_at
                <= bound,
    decreases s.len(),
{
    if s.len() == 0 || s.last().created_at <= t.created_at {
    } else {
        lemma_insert_bounded(s.drop_last(), t, bound);
    }
}

/// The ordered view is sorted by creation time and holds exactly the
/// original tasks.
pub proof fn law_sorted_by_created(tasks: Seq<Task>)
    ensures
        ordered_by_created(sorted_by_created(tasks)),
        sorted_by_created(tasks).to_multiset() == tasks.to_multiset(),
        sorted_by_created(tasks).len() == tasks.len(),
    decreases tasks.len(),
{
    if tasks.len() > 0 {
        law_sorted_by_created(tasks.drop_last());
        lemma_insert_keeps_order(sorted_by_created(tasks.drop_last()), tasks.last());
        vstd::seq_lib::to_multiset_build(tasks.drop_last(), tasks.last());
        assert(tasks.drop_last().push(tasks.last()) =~= tasks);
    }
}

/// The tasks created at Unix millisecond `k`.
pub open spec fn created_at_is(k: i64) -> spec_fn(Task) -> bool {
    |t: Task| t.created_at == k
}

/// Inserting does not reorder the tasks created at any one instant.
proof fn lemma_insert_filter(s: Seq<Task>, t: Task, k: i64)
    ensures
        insert_by_created(s, t).filter(created_at_is(k)) == s.push(t).filter(created_at_is(k)),
    decreases s.len(),
{
    let p = created_at_is(k);
    if s.len() == 0 || s.last().created_at <= t.created_at {
    } else {
        let init = s.drop_last();
        lemma_insert_filter(init, t, k);
        let r = insert_by_created(init, t);
        assert(init.push(s.last()) =~= s);
        s.lemma_filter_push(t, p);
        init.lemma_filter_push(s.last(), p);
        init.lemma_filter_push(t, p);
        r.lemma_filter_push(s.last(), p);
    }
}

/// Tasks created at the same instant keep their original relative order.
pub proof fn law_sort_is_stable(tasks: Seq<Task>, k: i64)
    ensures
        sorted_by_created(tasks).filter(created_at_is(k)) == tasks.filter(created_at_is(k)),
    decreases tasks.len(),
{
    if tasks.len() > 0 {
        let init = tasks.drop_last();
        law_sort_is_stable(init, k);
        lemma_insert_filter(sorted_by_created(init), tasks.last(), k);
        sorted_by_created(init).lemma_filter_push(tasks.last(), created_at_is(k));
        init.lemma_filter_push(tasks.last(), created_at_is(k));
        assert(init.push(tasks.last()) =~= tasks);
    } else {
        assert(tasks.filter(created_at_is(k)) =~= Seq::<Task>::empty());
        assert(sorted_by_created(tasks).filter(created_at_is(k)) =~= Seq::<Task>::empty());
    }
}

/// How one listed task reads: its hex id (empty when it has none), title,
/// status and priority names, and the caller's email as assignee.
pub open spec fn item_describes(item: ViewTaskItem, task: Task, email: Seq<char>) -> bool {
    &&& item.id@ == match task.id {
        Some(id) => id.hex(),
        None => Seq::<char>::empty(),
    }
    &&& item.title@ == task.title@
    &&& item.status@ == status_name(task.status)
    &&& item.priority@ == priority_name(task.priority)
    &&& item.assigned_to@ == email
}

/// The listed form of one task.
fn view_item(task: &Task, email: &str) -> (item: ViewTaskItem)
    ensures
        item_describes(item, *task, email@),
{
    let id = match task.id {
        Some(id) => id.to_hex(),
        None => String::new(),
    };
    ViewTaskItem {
        id,
        title: task.title.clone(),
        status: task.status.as_str().to_string(),
        priority: task.priority.as_str().to_string(),
        assigned_to: email.to_string(),
    }
}

/// The freshly built payload for `user` over the tasks assigned to them.
pub open spec fn describes_view(
    r: ViewMyTasksResponse,
    user: AuthUser,
    tasks: Seq<Task>,
) -> bool {
    let sorted = sorted_by_created(tasks);
    &&& r.user.email@ == user.email@
    &&& r.user.role@ == role_name(user.role)
    &&& r.tasks@.len() == sorted.len()
    &&& forall|i: int|
        0 <= i < sorted.len() ==> item_describes(#[trigger] r.tasks@[i], sorted[i], user.email@)
    &&& r.total_assigned_tasks == tasks.len()
    &&& !r.cache_hit
}

/// Builds the `view-my-tasks` payload from the tasks assigned to the caller.
pub fn build_view(auth_user: &AuthUser, tasks: Vec<Task>) -> (r: ViewMyTasksResponse)
    ensures
        describes_view(r, *auth_user, tasks@),
{
    let total = tasks.len();
    let sorted = sort_by_created(tasks);
    proof {
        law_sorted_by_created(tasks@);
    }
    let mut items: Vec<ViewTaskItem> = Vec::new();
    let mut i: usize = 0;
    while i < sorted.len()
        invariant
            i <= sorted@.len(),
            items@.len() == i,
            forall|j: int|
                0 <= j < i ==> item_describes(#[trigger] items@[j], sorted@[j], auth_user.email@),
        decreases sorted.len() - i,
    {
        items.push(view_item(&sorted[i], auth_user.email.as_str()));
        i += 1;
    }
    ViewMyTasksResponse {
        user: ViewUser {
            email: auth_user.email.clone(),
            role: auth_user.role.as_str().to_string(),
        },
        tasks: items,
        total_assigned_tasks: total,
        cache_hit: false,
    }
}

/// A payload served from the cache: as stored, flagged as a cache hit.
pub fn serve_cached(cached: ViewMyTasksResponse) -> (r: ViewMyTasksResponse)
    ensures
        r == (ViewMyTasksResponse { cache_hit: true, ..cached }),
{
    ViewMyTasksResponse { cache_hit: true, ..cached }
}

} // verus!
