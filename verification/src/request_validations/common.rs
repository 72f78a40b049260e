//! Field validators shared across domains.
use vstd::prelude::*;

use crate::errors::texts;
use crate::utils::text::lemma_push_contains;

verus! {

/// Minimal email shape: exactly one `@`, with text on both sides of it.
pub open spec fn is_valid_email_spec(s: Seq<char>) -> bool {
    exists|i: int|
        0 < i < s.len() - 1 && #[trigger] s[i] == '@' && !s.take(i).contains('@') && !s.skip(
            i + 1,
        ).contains('@')
}

/// A validator's answer for the list of problems it found: success when there
/// are none, else exactly those messages, in order.
pub open spec fn reports(r: Result<(), Vec<String>>, problems: Seq<Seq<char>>) -> bool {
    match r {
        Ok(()) => problems.len() == 0,
        Err(errors) => problems.len() > 0 && texts(errors@) == problems,
    }
}

/// The list with `message` when `failed` holds, else the empty list.
pub open spec fn problem_if(failed: bool, message: Seq<char>) -> Seq<Seq<char>> {
    if failed {
        seq![message]
    } else {
        Seq::empty()
    }
}

/// Minimal email shape check: non-empty, single `@`, with text on both sides.
pub fn is_valid_email(email: &str) -> (r: bool)
    ensures
        r == is_valid_email_spec(email@),
{
    let ghost s = email@;
    let mut seen_at = false;
    let mut local_part = false;
    let ghost mut at_pos: int = 0;
    let mut extra_at = false;
    let mut domain_part = false;
    for c in it: email.chars()
        invariant
            it.seq() == s,
            0 <= it.index() <= s.len(),
            seen_at == s.take(it.index()).contains('@'),
            seen_at ==> 0 <= at_pos < it.index() && s[at_pos] == '@' && !s.take(at_pos).contains(
                '@',
            ) && local_part == (at_pos > 0),
            !seen_at ==> local_part == (it.index() > 0),
            extra_at == (seen_at && s.subrange(at_pos + 1, it.index()).contains('@')),
            domain_part == (seen_at && at_pos + 1 < it.index()),
    {
        let ghost k = it.index();
        let ghost old_take = s.take(k);
        assert(s.take(k + 1) =~= old_take.push(c));
        if seen_at {
            assert(s.take(k + 1)[at_pos] == '@');
            assert(s.subrange(at_pos + 1, k + 1) =~= s.subrange(at_pos + 1, k).push(c));
            if c == '@' {
                extra_at = true;
            }
            domain_part = true;
            proof {
                lemma_push_contains(s.subrange(at_pos + 1, k), c, '@');
            }
        } else if c == '@' {
            seen_at = true;
            proof {
                at_pos = k;
            }
            assert(s.take(k + 1)[k] == '@');
            assert(s.subrange(at_pos + 1, k + 1) =~= Seq::<char>::empty());
        } else {
            local_part = true;
            assert forall|j: int| 0 <= j < k + 1 implies #[trigger] s.take(k + 1)[j] != '@' by {
                if j < k {
                    assert(s.take(k + 1)[j] == old_take[j]);
                }
            }
        }
    }
    assert(s.take(s.len() as int) =~= s);
    let r = seen_at && !extra_at && local_part && domain_part;
    proof {
        if r {
            assert(s.skip(at_pos + 1) =~= s.subrange(at_pos + 1, s.len() as int));
            assert(0 < at_pos < s.len() - 1 && s[at_pos] == '@');
        }
        if is_valid_email_spec(s) {
            let i = choose|i: int|
                0 < i < s.len() - 1 && #[trigger] s[i] == '@' && !s.take(i).contains('@')
                    && !s.skip(i + 1).contains('@');
            assert(s.take(s.len() as int)[i] == '@');
            if at_pos < i {
                assert(s.take(i)[at_pos] == '@');
            } else if at_pos > i {
                assert(s.skip(i + 1)[at_pos - i - 1] == '@');
            }
            assert(s.skip(i + 1) =~= s.subrange(at_pos + 1, s.len() as int));
        }
    }
    r
}

} // verus!
