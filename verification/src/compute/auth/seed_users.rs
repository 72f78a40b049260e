//! Idempotent seeding of the demo accounts: an account is created only when
//! no user has its email yet.
use vstd::prelude::*;

use crate::errors::ApiError;
use crate::models::user::{User, UserRole};
use crate::security::{argon2_verifies, hash_password, phc_hash_parses};
use crate::utils::clock::{db_clock_reading, read_db_clock};

verus! {

/// A demo account: full name, email, password and role.
pub struct SeedAccount {
    pub full_name: &'static str,
    pub email: &'static str,
    pub password: &'static str,
    pub role: UserRole,
}

/// The demo accounts, in seeding order.
pub open spec fn seed_accounts_spec() -> Seq<(Seq<char>, Seq<char>, Seq<char>, UserRole)> {
    seq![
        ("Admin"@, "admin@example.com"@, "Admin@123"@, UserRole::Admin),
        ("James Bond"@, "jamesbond@example.com"@, "Bond@123"@, UserRole::Staff),
    ]
}

/// A seed account as (full name, email, password, role).
pub open spec fn account_view(a: SeedAccount) -> (Seq<char>, Seq<char>, Seq<char>, UserRole) {
    (a.full_name@, a.email@, a.password@, a.role)
}

/// The two demo accounts seeded for local validation.
pub fn seed_accounts() -> (accounts: Vec<SeedAccount>)
    ensures
        accounts@.map_values(|a: SeedAccount| account_view(a)) == seed_accounts_spec(),
{
    let mut accounts: Vec<SeedAccount> = Vec::new();
    accounts.push(
        SeedAccount {
            full_name: "Admin",
            email: "admin@example.com",
            password: "Admin@123",
            role: UserRole::Admin,
        },
    );
    accounts.push(
        SeedAccount {
            full_name: "James Bond",
            email: "jamesbond@example.com",
            password: "Bond@123",
            role: UserRole::Staff,
        },
    );
    assert(accounts@.map_values(|a: SeedAccount| account_view(a)) =~= seed_accounts_spec());
    accounts
}

/// The stored document of a demo account: its password kept only as an
/// Argon2 hash that verifies it, both timestamps at `now`.
pub open spec fn is_seed_document(
    u: User,
    account: (Seq<char>, Seq<char>, Seq<char>, UserRole),
    now: int,
) -> bool {
    &&& u.id is None
    &&& u.full_name@ == account.0
    &&& u.email@ == account.1
    &&& phc_hash_parses(u.password_hash@)
    &&& argon2_verifies(account.2, u.password_hash@)
    &&& u.role == account.3
    &&& u.created_at == now
    &&& u.updated_at == now
}

/// The progress of one seeding run: which account comes next and which
/// accounts this run created.
pub struct SeedRun {
    accounts: Vec<SeedAccount>,
    next: usize,
    inserted: Vec<String>,
}

impl SeedRun {
    /// The accounts still to be handled, in order.
    pub closed spec fn remaining(self) -> Seq<(Seq<char>, Seq<char>, Seq<char>, UserRole)> {
        self.accounts@.map_values(|a: SeedAccount| account_view(a)).skip(self.next as int)
    }

    /// The emails of the accounts this run created, in order.
    pub closed spec fn created(self) -> Seq<Seq<char>> {
        self.inserted@.map_values(|s: String| s@)
    }

    /// The run goes over the demo accounts, and the position of the next one
    /// lies within the list.
    pub closed spec fn well_formed(self) -> bool {
        &&& self.next <= self.accounts@.len()
        &&& self.accounts@.map_values(|a: SeedAccount| account_view(a)) == seed_accounts_spec()
    }

    /// A run that has not yet considered any account.
    pub fn new() -> (run: SeedRun)
        ensures
            run.well_formed(),
            run.remaining() == seed_accounts_spec(),
            run.created() == Seq::<Seq<char>>::empty(),
    {
        let accounts = seed_accounts();
        let run = SeedRun { accounts, next: 0, inserted: Vec::new() };
        assert(run.remaining() =~= seed_accounts_spec());
        assert(run.created() =~= Seq::<Seq<char>>::empty());
        run
    }

    /// The email to look up next, none once every account was handled.
    pub fn pending_email(&self) -> (r: Option<&'static str>)
        requires
            self.well_formed(),
        ensures
            self.remaining().len() == 0 <==> r is None,
            r matches Some(e) ==> e@ == self.remaining()[0].1,
    {
        if self.next < self.accounts.len() {
            Some(self.accounts[self.next].email)
        } else {
            None
        }
    }

    /// The pending account already exists: it is left alone.
    pub fn skip_existing(&mut self)
        requires
            old(self).well_formed(),
            old(self).remaining().len() > 0,
        ensures
            final(self).well_formed(),
            final(self).remaining() == old(self).remaining().drop_first(),
            final(self).created() == old(self).created(),
    {
        assert(self.remaining().len() == self.accounts@.len() - self.next);
        let n = self.accounts.len();
        assert(self.next < n);
        self.next = self.next + 1;
        assert(self.remaining() =~= old(self).remaining().drop_first());
    }

    /// The document to insert for the pending account, which does not exist yet.
    pub fn pending_document(&self) -> (r: Result<User, ApiError>)
        requires
            self.well_formed(),
            self.remaining().len() > 0,
        ensures
            r matches Ok(u) ==> exists|now: int| is_seed_document(u, self.remaining()[0], now),
            r matches Ok(u) ==> db_clock_reading(u.created_at),
            r is Ok,
    {
        assert(self.remaining().len() == self.accounts@.len() - self.next);
        assert(self.remaining()[0] == account_view(self.accounts@[self.next as int]));
        let account = &self.accounts[self.next];
        proof {
            reveal_strlit("Admin@123");
            reveal_strlit("Bond@123");
            assert(account_view(self.accounts@[self.next as int]) == seed_accounts_spec()[self.next as int]);
            assert(account.password@.len() <= 9);
        }
        let password_hash = match hash_password(account.password) {
            Ok(h) => h,
            Err(message) => return Err(ApiError::Internal(message)),
        };
        let now = read_db_clock();
        let user = User {
            id: None,
            full_name: account.full_name.to_string(),
            email: account.email.to_string(),
            password_hash,
            role: account.role,
            created_at: now,
            updated_at: now,
        };
        assert(is_seed_document(user, self.remaining()[0], now as int));
        Ok(user)
    }

    /// The pending account was inserted: its email is recorded as created.
    pub fn mark_inserted(&mut self)
        requires
            old(self).well_formed(),
            old(self).remaining().len() > 0,
        ensures
            final(self).well_formed(),
            final(self).remaining() == old(self).remaining().drop_first(),
            final(self).created() == old(self).created().push(old(self).remaining()[0].1),
    {
        assert(self.remaining().len() == self.accounts@.len() - self.next);
        assert(self.remaining()[0] == account_view(self.accounts@[self.next as int]));
        let email = self.accounts[self.next].email.to_string();
        self.inserted.push(email);
        let n = self.accounts.len();
        assert(self.next < n);
        self.next = self.next + 1;
        assert(self.remaining() =~= old(self).remaining().drop_first());
        assert(self.created() =~= old(self).created().push(old(self).remaining()[0].1));
    }

    /// The emails of the accounts this run created.
    pub fn newly_inserted(self) -> (emails: Vec<String>)
        ensures
            emails@.map_values(|s: String| s@) == self.created(),
    {
        self.inserted
    }
}

/// The emails a seeding run over `accounts` creates when the store already
/// holds the addresses in `existing`: each account whose address is not yet
/// stored is inserted, and from then on counts as stored.
pub open spec fn seed_outcome(
    accounts: Seq<(Seq<char>, Seq<char>, Seq<char>, UserRole)>,
    existing: Set<Seq<char>>,
) -> Seq<Seq<char>>
    decreases accounts.len(),
{
    if accounts.len() == 0 {
        Seq::empty()
    } else if existing.contains(accounts[0].1) {
        seed_outcome(accounts.drop_first(), existing)
    } else {
        seq![accounts[0].1] + seed_outcome(accounts.drop_first(), existing.insert(accounts[0].1))
    }
}

/// A run in which every lookup finds its account creates nothing.
pub proof fn law_seeding_existing_accounts_creates_nothing(
    accounts: Seq<(Seq<char>, Seq<char>, Seq<char>, UserRole)>,
    existing: Set<Seq<char>>,
)
    requires
        forall|i: int| 0 <= i < accounts.len() ==> existing.contains(#[trigger] accounts[i].1),
    ensures
        seed_outcome(accounts, existing) == Seq::<Seq<char>>::empty(),
    decreases accounts.len(),
{
    if accounts.len() > 0 {
        let rest = accounts.drop_first();
        assert(existing.contains(accounts[0].1));
        assert forall|i: int| 0 <= i < rest.len() implies existing.contains(#[trigger] rest[i].1) by {
            assert(rest[i] == accounts[i + 1]);
        }
        law_seeding_existing_accounts_creates_nothing(rest, existing);
    }
}

/// After a run, every account's address is stored: it was there already or
/// the run created it.
proof fn lemma_seeded_addresses_stored(
    accounts: Seq<(Seq<char>, Seq<char>, Seq<char>, UserRole)>,
    existing: Set<Seq<char>>,
)
    ensures
        forall|i: int|
            0 <= i < accounts.len() ==> existing.union(seed_outcome(accounts, existing).to_set()).contains(
                #[trigger] accounts[i].1,
            ),
    decreases accounts.len(),
{
    if accounts.len() > 0 {
        let rest = accounts.drop_first();
        let e = accounts[0].1;
        let out = seed_outcome(accounts, existing);
        let all = existing.union(out.to_set());
        if existing.contains(e) {
            lemma_seeded_addresses_stored(rest, existing);
        } else {
            let inner = existing.insert(e);
            lemma_seeded_addresses_stored(rest, inner);
            let rout = seed_outcome(rest, inner);
            assert(out == seq![e] + rout);
            assert(out[0] == e);
            assert forall|x: Seq<char>| inner.union(rout.to_set()).contains(x) implies all.contains(x) by {
                if rout.to_set().contains(x) {
                    let j = choose|j: int| 0 <= j < rout.len() && rout[j] == x;
                    assert(out[j + 1] == x);
                }
            }
        }
        assert forall|i: int| 0 <= i < accounts.len() implies all.contains(#[trigger] accounts[i].1) by {
            if i > 0 {
                assert(accounts[i] == rest[i - 1]);
            }
        }
    }
}

/// A run follows `seed_outcome`: with the store holding `existing` plus what
/// the run created so far, skipping an account that the lookup found
/// (`skip_existing`) or inserting one it did not find (`mark_inserted`) keeps
/// "created so far, then what the rest of the run creates" unchanged. A run
/// that starts with nothing created therefore ends having created exactly
/// `seed_outcome(seed_accounts_spec(), existing)`.
pub proof fn law_seed_run_follows_outcome(
    created: Seq<Seq<char>>,
    remaining: Seq<(Seq<char>, Seq<char>, Seq<char>, UserRole)>,
    existing: Set<Seq<char>>,
)
    requires
        remaining.len() > 0,
    ensures
        ({
            let stored = existing.union(created.to_set());
            let e = remaining[0].1;
            &&& stored.contains(e) ==> created + seed_outcome(remaining.drop_first(), stored)
                == created + seed_outcome(remaining, stored)
            &&& !stored.contains(e) ==> created.push(e) + seed_outcome(
                remaining.drop_first(),
                existing.union(created.push(e).to_set()),
            ) == created + seed_outcome(remaining, stored)
        }),
{
    let stored = existing.union(created.to_set());
    let e = remaining[0].1;
    if !stored.contains(e) {
        assert(existing.union(created.push(e).to_set()) =~= stored.insert(e)) by {
            assert forall|x: Seq<char>| created.push(e).to_set().contains(x) == (created.to_set().contains(x) || x == e) by {
                if created.push(e).to_set().contains(x) {
                    let j = choose|j: int| 0 <= j < created.push(e).len() && created.push(e)[j] == x;
                    if j < created.len() {
                        assert(created[j] == x);
                    }
                }
                if created.to_set().contains(x) {
                    let j = choose|j: int| 0 <= j < created.len() && created[j] == x;
                    assert(created.push(e)[j] == x);
                }
                if x == e {
                    assert(created.push(e)[created.len() as int] == x);
                }
            }
        }
        let rest = seed_outcome(remaining.drop_first(), stored.insert(e));
        assert(created.push(e) + rest =~= created + (seq![e] + rest));
    }
}

/// Seeding is idempotent: a second run, on the store the first run left,
/// creates nothing.
pub proof fn law_seeding_is_idempotent(
    accounts: Seq<(Seq<char>, Seq<char>, Seq<char>, UserRole)>,
    existing: Set<Seq<char>>,
)
    ensures
        seed_outcome(accounts, existing.union(seed_outcome(accounts, existing).to_set()))
            == Seq::<Seq<char>>::empty(),
{
    lemma_seeded_addresses_stored(accounts, existing);
    law_seeding_existing_accounts_creates_nothing(
        accounts,
        existing.union(seed_outcome(accounts, existing).to_set()),
    );
}

} // verus!
