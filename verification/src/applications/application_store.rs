//! The in-memory book of the latest 2FA code delivered to each address, read
//! by the development endpoint that stands in for a real mailbox.
use vstd::prelude::*;

use crate::utils::text::{
    lemma_text_less_asymmetric, lemma_text_less_total, lemma_text_less_transitive, text_equals,
    text_is_less, text_less,
};

verus! {

/// The latest 2FA code delivered to an address.
#[derive(Debug, Clone)]
pub struct DevEmailEvent {
    pub to_email: String,
    pub code: String,
    pub challenge_id: String,
    pub created_at_iso: String,
}

/// The position of the entry for `email`, or -1 when there is none.
pub open spec fn entry_index(entries: Seq<DevEmailEvent>, email: Seq<char>) -> int
    decreases entries.len(),
{
    if entries.len() == 0 {
        -1
    } else if entries.last().to_email@ == email {
        entries.len() - 1
    } else {
        entry_index(entries.drop_last(), email)
    }
}

/// The entry recorded for `email`.
pub open spec fn entry_for(entries: Seq<DevEmailEvent>, email: Seq<char>) -> Option<DevEmailEvent> {
    let i = entry_index(entries, email);
    if i >= 0 {
        Some(entries[i])
    } else {
        None
    }
}

/// The entries after recording `event`: it replaces the entry for the same
/// address, or is added.
pub open spec fn entries_after_record(entries: Seq<DevEmailEvent>, event: DevEmailEvent) -> Seq<
    DevEmailEvent,
> {
    let i = entry_index(entries, event.to_email@);
    if i >= 0 {
        entries.update(i, event)
    } else {
        entries.push(event)
    }
}

/// No address has two entries.
pub open spec fn distinct_addresses(entries: Seq<DevEmailEvent>) -> bool {
    forall|i: int, j: int|
        0 <= i < entries.len() && 0 <= j < entries.len() && i != j ==> entries[i].to_email@
            != entries[j].to_email@
}

/// Where `entry_index` points: an entry for `email`, or none exists.
pub proof fn lemma_entry_index(entries: Seq<DevEmailEvent>, email: Seq<char>)
    ensures
        -1 <= entry_index(entries, email) < entries.len(),
        entry_index(entries, email) >= 0 ==> entries[entry_index(entries, email)].to_email@
            == email,
        entry_index(entries, email) < 0 ==> forall|j: int|
            0 <= j < entries.len() ==> #[trigger] entries[j].to_email@ != email,
        forall|j: int|
            entry_index(entries, email) < j < entries.len() ==> #[trigger] entries[j].to_email@
                != email,
    decreases entries.len(),
{
    if entries.len() > 0 {
        lemma_entry_index(entries.drop_last(), email);
        assert forall|j: int|
            entry_index(entries, email) < j < entries.len() implies #[trigger] entries[j].to_email@
            != email by {
            if j < entries.len() - 1 {
                assert(entries[j] == entries.drop_last()[j]);
            }
        }
        if entries.last().to_email@ != email {
            assert forall|j: int|
                0 <= j < entries.len() && entry_index(entries, email) < 0 implies #[trigger] entries[j].to_email@
                != email by {
                if j < entries.len() - 1 {
                    assert(entries[j] == entries.drop_last()[j]);
                }
            }
        }
    }
}

/// The entry index is the last position holding the address.
proof fn lemma_entry_index_last(entries: Seq<DevEmailEvent>, email: Seq<char>, k: int)
    requires
        0 <= k < entries.len(),
        entries[k].to_email@ == email,
        forall|j: int| k < j < entries.len() ==> #[trigger] entries[j].to_email@ != email,
    ensures
        entry_index(entries, email) == k,
    decreases entries.len(),
{
    if k < entries.len() - 1 {
        assert forall|j: int| k < j < entries.len() - 1 implies #[trigger] entries.drop_last()[j].to_email@ != email by {
            assert(entries.drop_last()[j] == entries[j]);
        }
        lemma_entry_index_last(entries.drop_last(), email, k);
    }
}

/// Where the entry for `email` stands.
fn position_of(events: &Vec<DevEmailEvent>, email: &str) -> (r: Option<usize>)
    ensures
        match r {
            Some(i) => i < events@.len() && i == entry_index(events@, email@),
            None => entry_index(events@, email@) < 0,
        },
{
    proof {
        lemma_entry_index(events@, email@);
    }
    let n = events.len();
    let mut i: usize = n;
    while i > 0
        invariant
            i <= n == events.len(),
            forall|j: int| i <= j < n ==> #[trigger] events@[j].to_email@ != email@,
        decreases i,
    {
        if text_equals(events[i - 1].to_email.as_str(), email) {
            proof {
                lemma_entry_index_last(events@, email@, i - 1);
            }
            return Some(i - 1);
        }
        i -= 1;
    }
    None
}

/// The entry at `i` has the greatest `created_at_iso` (as text), and every
/// later entry a strictly smaller one: it is the last among the greatest.
pub open spec fn is_latest_at(entries: Seq<DevEmailEvent>, i: int) -> bool {
    &&& forall|j: int|
        0 <= j < entries.len() ==> !text_less(
            entries[i].created_at_iso@,
            #[trigger] entries[j].created_at_iso@,
        )
    &&& forall|j: int|
        i < j < entries.len() ==> text_less(
            #[trigger] entries[j].created_at_iso@,
            entries[i].created_at_iso@,
        )
}

/// The development mailbox: the latest delivered login code per address.
pub struct DevEmailBook {
    events: Vec<DevEmailEvent>,
}

impl DevEmailBook {
    /// No address is recorded twice.
    #[verifier::type_invariant]
    spec fn distinct(self) -> bool {
        distinct_addresses(self.events@)
    }

    /// The recorded deliveries, one per address, in the order addresses
    /// were first recorded.
    pub closed spec fn entries(self) -> Seq<DevEmailEvent> {
        self.events@
    }

    /// An empty mailbox.
    pub fn new() -> (book: DevEmailBook)
        ensures
            book.entries() == Seq::<DevEmailEvent>::empty(),
    {
        DevEmailBook { events: Vec::new() }
    }

    /// Records the latest delivery to `event.to_email`, replacing an earlier one.
    pub fn record(&mut self, event: DevEmailEvent)
        ensures
            final(self).entries() == entries_after_record(old(self).entries(), event),
    {
        proof {
            use_type_invariant(&*self);
            lemma_entry_index(self.events@, event.to_email@);
        }
        let ghost before = self.events@;
        let n = self.events.len();
        let position = position_of(&self.events, event.to_email.as_str());
        if let Some(i) = position {
            let mut events: Vec<DevEmailEvent> = Vec::new();
            std::mem::swap(&mut events, &mut self.events);
            events.set(i, event);
            assert forall|a: int, b: int|
                0 <= a < events@.len() && 0 <= b < events@.len() && a != b implies events@[a].to_email@
                != events@[b].to_email@ by {
                if a != i && b != i {
                    assert(events@[a] == before[a] && events@[b] == before[b]);
                } else if a == i {
                    assert(events@[b] == before[b]);
                } else {
                    assert(events@[a] == before[a]);
                }
            }
            self.events = events;
        } else {
            let mut events: Vec<DevEmailEvent> = Vec::new();
            std::mem::swap(&mut events, &mut self.events);
            events.push(event);
            assert forall|a: int, b: int|
                0 <= a < events@.len() && 0 <= b < events@.len() && a != b implies events@[a].to_email@
                != events@[b].to_email@ by {
                if a < n && b < n {
                    assert(events@[a] == before[a] && events@[b] == before[b]);
                } else if a == n {
                    assert(events@[b] == before[b]);
                } else {
                    assert(events@[a] == before[a]);
                }
            }
            self.events = events;
        }
    }

    /// The delivery recorded for `email`.
    pub fn get(&self, email: &str) -> (r: Option<&DevEmailEvent>)
        ensures
            match entry_for(self.entries(), email@) {
                Some(e) => r matches Some(x) && *x == e,
                None => r is None,
            },
    {
        match position_of(&self.events, email) {
            Some(i) => Some(&self.events[i]),
            None => None,
        }
    }

    /// A delivery with the greatest `created_at_iso` (compared as text); the
    /// last such in entry order when several tie.
    pub fn latest(&self) -> (r: Option<&DevEmailEvent>)
        ensures
            r is None <==> self.entries().len() == 0,
            r matches Some(x) ==> exists|i: int|
                0 <= i < self.entries().len() && *x == self.entries()[i] && is_latest_at(
                    self.entries(),
                    i,
                ),
    {
        let n = self.events.len();
        if n == 0 {
            return None;
        }
        let mut best: usize = 0;
        let mut i: usize = 1;
        proof {
            crate::utils::text::lemma_text_less_irreflexive(self.events@[0].created_at_iso@);
        }
        while i < n
            invariant
                1 <= i <= n == self.events.len(),
                best < i,
                forall|j: int|
                    0 <= j < i ==> !text_less(
                        self.events@[best as int].created_at_iso@,
                        #[trigger] self.events@[j].created_at_iso@,
                    ),
                forall|j: int|
                    best < j < i ==> text_less(
                        #[trigger] self.events@[j].created_at_iso@,
                        self.events@[best as int].created_at_iso@,
                    ),
            decreases n - i,
        {
            let ghost old_best = self.events@[best as int].created_at_iso@;
            if !text_is_less(
                self.events[i].created_at_iso.as_str(),
                self.events[best].created_at_iso.as_str(),
            ) {
                let ghost cand = self.events@[i as int].created_at_iso@;
                proof {
                    assert forall|j: int| 0 <= j < i + 1 implies !text_less(
                        cand,
                        #[trigger] self.events@[j].created_at_iso@,
                    ) by {
                        let other = self.events@[j].created_at_iso@;
                        if j == i {
                            crate::utils::text::lemma_text_less_irreflexive(cand);
                        } else if text_less(cand, other) {
                            lemma_text_less_total(cand, old_best);
                            if text_less(old_best, cand) {
                                lemma_text_less_transitive(old_best, cand, other);
                            }
                        }
                    }
                }
                best = i;
            } else {
                proof {
                    lemma_text_less_asymmetric(
                        self.events@[i as int].created_at_iso@,
                        old_best,
                    );
                }
            }
            i += 1;
        }
        assert(is_latest_at(self.entries(), best as int));
        let r = &self.events[best];
        assert(*r == self.entries()[best as int]);
        Some(r)
    }
}

/// Reading an address right after recording a delivery to it gives that
/// delivery; a book whose addresses were distinct stays so.
pub proof fn law_read_after_record(entries: Seq<DevEmailEvent>, event: DevEmailEvent)
    ensures
        entry_for(entries_after_record(entries, event), event.to_email@) == Some(event),
        distinct_addresses(entries) ==> distinct_addresses(entries_after_record(entries, event)),
{
    let e = event.to_email@;
    lemma_entry_index(entries, e);
    let after = entries_after_record(entries, event);
    let i = entry_index(entries, e);
    let k = if i >= 0 {
        i
    } else {
        entries.len() as int
    };
    assert forall|j: int| k < j < after.len() implies #[trigger] after[j].to_email@ != e by {
        assert(after[j] == entries[j]);
    }
    lemma_entry_index_last(after, e, k);
    if distinct_addresses(entries) {
        assert forall|a: int, b: int|
            0 <= a < after.len() && 0 <= b < after.len() && a != b implies after[a].to_email@
            != after[b].to_email@ by {
            if a != k && b != k {
                assert(after[a] == entries[a] && after[b] == entries[b]);
            } else if a == k {
                assert(after[b] == entries[b]);
            } else {
                assert(after[a] == entries[a]);
            }
        }
    }
}

/// Recording a delivery to one address leaves what is read for any other unchanged.
pub proof fn law_record_keeps_others(
    entries: Seq<DevEmailEvent>,
    event: DevEmailEvent,
    email: Seq<char>,
)
    requires
        email != event.to_email@,
    ensures
        entry_for(entries_after_record(entries, event), email) == entry_for(entries, email),
{
    let e = event.to_email@;
    lemma_entry_index(entries, e);
    lemma_entry_index(entries, email);
    let after = entries_after_record(entries, event);
    lemma_entry_index(after, email);
    let i = entry_index(entries, e);
    let j = entry_index(entries, email);
    assert forall|p: int| 0 <= p < entries.len() && p != i implies after[p] == entries[p] by {}
    if j >= 0 {
        assert(j != i);
        assert forall|p: int| j < p < after.len() implies #[trigger] after[p].to_email@ != email by {
            if p < entries.len() && p != i {
                assert(after[p] == entries[p]);
            }
        }
        lemma_entry_index_last(after, email, j);
    } else {
        let k = entry_index(after, email);
        if k >= 0 {
            if k < entries.len() && k != i {
                assert(after[k] == entries[k]);
            }
        }
    }
}

} // verus!
