//! An in-memory storage backend: a verified implementation of the
//! repository contract, suitable as a test fixture and as the reference
//! model of what a backend must do.

use vstd::prelude::*;

use crate::decimal::{decimal_digits, lemma_decimal_digits_injective, lemma_decimal_digits_nonempty,
    u64_to_decimal};
use crate::errors::CustomError;
use crate::models::{User, UserView};
use crate::repository::{StoredUsers, UserDbTrait};

verus! {

/// The identifier under which a stored record is keyed (stored records
/// always carry one).
pub open spec fn stored_key(u: User) -> Seq<char> {
    match u.id {
        Some(s) => s@,
        None => Seq::empty(),
    }
}

/// Whether some record in `s` is keyed by `k`.
spec fn has_key(s: Seq<User>, k: Seq<char>) -> bool {
    exists|i: int| 0 <= i < s.len() && stored_key(#[trigger] s[i]) == k
}

/// The index of the record keyed by `k` (unique when keys are distinct).
spec fn key_index(s: Seq<User>, k: Seq<char>) -> int {
    choose|i: int| 0 <= i < s.len() && stored_key(#[trigger] s[i]) == k
}

/// The map modelled by a sequence of keyed records.
spec fn db_of(s: Seq<User>) -> Map<Seq<char>, UserView> {
    Map::new(|k: Seq<char>| has_key(s, k), |k: Seq<char>| s[key_index(s, k)].stored_view())
}

/// Pairwise-distinct keys.
spec fn distinct_keys(s: Seq<User>) -> bool {
    forall|i: int, j: int|
        0 <= i < s.len() && 0 <= j < s.len() && i != j ==> stored_key(#[trigger] s[i])
            != stored_key(#[trigger] s[j])
}

/// Every record carries an identifier.
spec fn all_have_ids(s: Seq<User>) -> bool {
    forall|i: int| 0 <= i < s.len() ==> (#[trigger] s[i]).id is Some
}

/// Whether one record's key is the numeral of a counter value below `bound`.
spec fn key_minted_below(u: User, bound: nat) -> bool {
    exists|m: nat| m < bound && stored_key(u) == decimal_digits(m)
}

/// Every key is the numeral of a counter value below `bound`.
spec fn keys_minted_below(s: Seq<User>, bound: nat) -> bool {
    forall|i: int| 0 <= i < s.len() ==> key_minted_below(#[trigger] s[i], bound)
}

/// Raising the bound keeps every key minted below it.
proof fn lemma_minted_below_weaken(s: Seq<User>, a: nat, b: nat)
    requires
        keys_minted_below(s, a),
        a <= b,
    ensures
        keys_minted_below(s, b),
{
    assert forall|i: int| 0 <= i < s.len() implies key_minted_below(#[trigger] s[i], b) by {
        let u = s[i];
        assert(key_minted_below(u, a));
        let m = choose|m: nat| m < a && stored_key(u) == decimal_digits(m);
        assert(m < b && stored_key(u) == decimal_digits(m));
    }
}

/// Appending a record under a fresh key inserts exactly that record into
/// the modelled map.
proof fn lemma_db_push(s: Seq<User>, u: User)
    requires
        distinct_keys(s),
        forall|i: int| 0 <= i < s.len() ==> stored_key(#[trigger] s[i]) != stored_key(u),
    ensures
        db_of(s.push(u)) == db_of(s).insert(stored_key(u), u.stored_view()),
{
    let post = s.push(u);
    let k0 = stored_key(u);
    assert(post[s.len() as int] == u);
    assert forall|k: Seq<char>| has_key(post, k) implies k == k0 || has_key(s, k) by {
        let i = choose|i: int| 0 <= i < post.len() && stored_key(#[trigger] post[i]) == k;
        if i < s.len() {
            assert(post[i] == s[i]);
        }
    }
    assert forall|k: Seq<char>| k == k0 || has_key(s, k) implies has_key(post, k) by {
        if k == k0 {
            assert(stored_key(post[s.len() as int]) == k);
        } else {
            let i = choose|i: int| 0 <= i < s.len() && stored_key(#[trigger] s[i]) == k;
            assert(stored_key(post[i]) == k);
        }
    }
    assert forall|k: Seq<char>| #[trigger] has_key(post, k) implies db_of(post)[k] == db_of(
        s,
    ).insert(k0, u.stored_view())[k] by {
        let j = key_index(post, k);
        assert(0 <= j < post.len() && stored_key(post[j]) == k);
        if k == k0 {
            if j < s.len() {
                assert(stored_key(s[j]) == k0);
                assert(false);
            }
            assert(post[j] == u);
        } else {
            assert(j != s.len());
            assert(post[j] == s[j]);
            let j2 = key_index(s, k);
            assert(0 <= j2 < s.len() && stored_key(s[j2]) == k);
            assert(j == j2);
        }
    }
    assert(db_of(post) =~= db_of(s).insert(k0, u.stored_view()));
}

/// Removing the record at one index removes exactly its key from the
/// modelled map.
proof fn lemma_db_remove(s: Seq<User>, idx: int)
    requires
        distinct_keys(s),
        0 <= idx < s.len(),
    ensures
        db_of(s.remove(idx)) == db_of(s).remove(stored_key(s[idx])),
{
    let post = s.remove(idx);
    let k0 = stored_key(s[idx]);
    assert forall|i: int| 0 <= i < post.len() implies post[i] == (if i < idx {
        s[i]
    } else {
        s[i + 1]
    }) by {}
    assert forall|k: Seq<char>| has_key(post, k) implies has_key(s, k) && k != k0 by {
        let i = choose|i: int| 0 <= i < post.len() && stored_key(#[trigger] post[i]) == k;
        if i < idx {
            assert(stored_key(s[i]) == k);
        } else {
            assert(stored_key(s[i + 1]) == k);
        }
    }
    assert forall|k: Seq<char>| has_key(s, k) && k != k0 implies has_key(post, k) by {
        let i = choose|i: int| 0 <= i < s.len() && stored_key(#[trigger] s[i]) == k;
        assert(i != idx);
        if i < idx {
            assert(stored_key(post[i]) == k);
        } else {
            assert(stored_key(post[i - 1]) == k);
        }
    }
    assert forall|k: Seq<char>| #[trigger] has_key(post, k) implies db_of(post)[k] == db_of(s)[k] by {
        let j = key_index(post, k);
        assert(0 <= j < post.len() && stored_key(post[j]) == k);
        let j_orig = if j < idx {
            j
        } else {
            j + 1
        };
        assert(stored_key(s[j_orig]) == k);
        let j2 = key_index(s, k);
        assert(0 <= j2 < s.len() && stored_key(s[j2]) == k);
        assert(j2 == j_orig);
        assert(post[j] == s[j_orig]);
    }
    assert(db_of(post) =~= db_of(s).remove(k0));
}

/// An in-memory backend: records live in a vector, and identifiers are
/// minted from a counter as decimal numerals, so they never repeat.
pub struct MockUserDB {
    users: Vec<User>,
    next_id: u64,
}

impl MockUserDB {
    /// Every stored record carries an identifier; each identifier is the
    /// numeral of a counter value already spent, so the next numeral is
    /// fresh; and no two records share an identifier.
    #[verifier::type_invariant]
    spec fn wf(self) -> bool {
        &&& all_have_ids(self.users@)
        &&& keys_minted_below(self.users@, self.next_id as nat)
        &&& distinct_keys(self.users@)
    }

    /// Whether another identifier can still be minted. The counter spans
    /// every 64-bit value, so this only runs out after that many creates.
    pub closed spec fn can_mint(&self) -> bool {
        self.next_id < u64::MAX
    }

    /// Builds an empty backend.
    pub fn new() -> (s: Self)
        ensures
            s.db() == Map::<Seq<char>, UserView>::empty(),
            s.can_mint(),
    {
        let s = MockUserDB { users: Vec::new(), next_id: 0 };
        proof {
            assert(s.db() =~= Map::<Seq<char>, UserView>::empty());
        }
        s
    }
}

impl UserDbTrait for MockUserDB {
    closed spec fn db(&self) -> StoredUsers {
        db_of(self.users@)
    }

    fn get_by_id(&self, id: &str) -> (r: Result<User, CustomError>)
        ensures
            self.db().contains_key(id@) ==> r is Ok,
    {
        proof {
            use_type_invariant(&*self);
        }
        let id_string = id.to_owned();
        let n: usize = self.users.len();
        let mut idx: usize = 0;
        while idx < n
            invariant
                n == self.users@.len(),
                idx <= n,
                self.wf(),
                forall|i: int| 0 <= i < idx ==> stored_key(#[trigger] self.users@[i]) != id@,
                id_string@ == id@,
            decreases n - idx,
        {
            let u = &self.users[idx];
            match &u.id {
                Some(key) => {
                    if *key == id_string {
                        let found = User {
                            id: Some(key.clone()),
                            name: u.name.clone(),
                            email: u.email.clone(),
                            password: u.password.clone(),
                        };
                        proof {
                            let ghost s = self.users@;
                            assert(stored_key(s[idx as int]) == id@);
                            assert(has_key(s, id@));
                            let j = key_index(s, id@);
                            assert(0 <= j < s.len() && stored_key(s[j]) == id@);
                            assert(j == idx as int);
                            assert(found.stored_view() == self.db()[id@]);
                        }
                        return Ok(found);
                    }
                },
                None => {},
            }
            idx += 1;
        }
        proof {
            assert(!has_key(self.users@, id@));
        }
        Err(CustomError::UserNotFound)
    }

    fn create(&mut self, user: User) -> (r: Result<String, CustomError>)
        ensures
            old(self).can_mint() ==> r is Ok,
            r is Err ==> !old(self).can_mint(),
    {
        proof {
            use_type_invariant(&*self);
        }
        if self.next_id == u64::MAX {
            return Err(CustomError::GenericError(String::from_str("identifier space exhausted")));
        }
        let n: u64 = self.next_id;
        let ghost pre = self.users@;
        proof {
            lemma_minted_below_weaken(self.users@, n as nat, (n + 1) as nat);
        }
        self.next_id = n + 1;
        let id = u64_to_decimal(n);
        let stored = User {
            id: Some(id.clone()),
            name: user.name,
            email: user.email,
            password: user.password,
        };
        proof {
            assert(stored_key(stored) == decimal_digits(n as nat));
            lemma_decimal_digits_nonempty(n as nat);
            assert forall|i: int| 0 <= i < pre.len() implies stored_key(#[trigger] pre[i])
                != stored_key(stored) by {
                let u = pre[i];
                assert(key_minted_below(u, n as nat));
                let m = choose|m: nat| m < n && stored_key(u) == decimal_digits(m);
                if stored_key(u) == stored_key(stored) {
                    lemma_decimal_digits_injective(m, n as nat);
                }
            }
        }
        let mut users: Vec<User> = Vec::new();
        core::mem::swap(&mut users, &mut self.users);
        users.push(stored);
        self.users = users;
        proof {
            lemma_db_push(pre, stored);
            assert(!has_key(pre, id@));
        }
        Ok(id)
    }

    fn delete(&mut self, id: &str) -> (r: Result<(), CustomError>)
        ensures
            r is Ok,
    {
        proof {
            use_type_invariant(&*self);
        }
        let id_string = id.to_owned();
        let n: usize = self.users.len();
        let mut idx: usize = 0;
        while idx < n
            invariant
                *self == *old(self),
                n == self.users@.len(),
                idx <= n,
                self.wf(),
                forall|i: int| 0 <= i < idx ==> stored_key(#[trigger] self.users@[i]) != id@,
                id_string@ == id@,
            decreases n - idx,
        {
            let u = &self.users[idx];
            match &u.id {
                Some(key) => {
                    if *key == id_string {
                        let ghost pre = self.users@;
                        proof {
                            assert(stored_key(pre[idx as int]) == id@);
                        }
                        let mut users: Vec<User> = Vec::new();
                        core::mem::swap(&mut users, &mut self.users);
                        users.remove(idx);
                        self.users = users;
                        proof {
                            lemma_db_remove(pre, idx as int);
                        }
                        return Ok(());
                    }
                },
                None => {},
            }
            idx += 1;
        }
        proof {
            assert(!has_key(self.users@, id@));
            assert(db_of(self.users@).remove(id@) =~= db_of(self.users@));
        }
        Ok(())
    }
}

} // verus!
