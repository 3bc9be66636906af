//! Registry of per-user rule sets.
//!
//! An [`AclManager`] maps a user identity to that user's current
//! [`UserDAcls`].  Registration replaces the rule set for an identity
//! wholesale — a later registration shadows every earlier one for the same
//! identity — and a lookup hands back a copy of the current value, so the
//! stored rules are never observed half-updated.

use vstd::prelude::*;
use crate::define::UserDAcls;
use crate::define::UserDAclsV;

verus! {

/// The mapping a sequence of registrations denotes: later entries shadow
/// earlier ones with the same identity.
pub closed spec fn registered_map(entries: Seq<(String, UserDAcls)>) -> Map<Seq<char>, UserDAclsV>
    decreases entries.len(),
{
    if entries.len() == 0 {
        Map::empty()
    } else {
        registered_map(entries.drop_last()).insert(
            entries.last().0@,
            entries.last().1.deep_view(),
        )
    }
}

/// Holds the current rule set for every known user identity.
#[derive(Debug)]
pub struct AclManager {
    entries: Vec<(String, UserDAcls)>,
}

impl View for AclManager {
    type V = Map<Seq<char>, UserDAclsV>;

    closed spec fn view(&self) -> Map<Seq<char>, UserDAclsV> {
        registered_map(self.entries@)
    }
}

proof fn lemma_registered_map_absent(entries: Seq<(String, UserDAcls)>, k: Seq<char>)
    requires
        forall|j: int| 0 <= j < entries.len() ==> (#[trigger] entries[j].0)@ != k,
    ensures
        !registered_map(entries).contains_key(k),
    decreases entries.len(),
{
    if entries.len() > 0 {
        lemma_registered_map_absent(entries.drop_last(), k);
    }
}

proof fn lemma_registered_map_found(entries: Seq<(String, UserDAcls)>, i: int, k: Seq<char>)
    requires
        0 <= i < entries.len(),
        entries[i].0@ == k,
        forall|j: int| i < j < entries.len() ==> (#[trigger] entries[j].0)@ != k,
    ensures
        registered_map(entries).contains_key(k),
        registered_map(entries)[k] == entries[i].1.deep_view(),
    decreases entries.len(),
{
    if i < entries.len() - 1 {
        lemma_registered_map_found(entries.drop_last(), i, k);
    }
}

impl AclManager {
    /// A registry with no identity known yet.
    pub fn new() -> (r: Self)
        ensures
            r@ == Map::<Seq<char>, UserDAclsV>::empty(),
    {
        AclManager { entries: Vec::new() }
    }

    /// Inserts or replaces the rule set registered for `user_id`.  Never
    /// fails; a later lookup for that identity observes exactly `config`.
    pub fn register_config(&mut self, user_id: String, config: UserDAcls)
        ensures
            final(self)@ == old(self)@.insert(user_id@, config.deep_view()),
    {
        let ghost before = self.entries@;
        self.entries.push((user_id, config));
        proof {
            assert(self.entries@.drop_last() =~= before);
        }
    }

    /// The rule set currently registered for `user_id`: a copy of the most
    /// recently registered value, or nothing for an unknown identity.
    pub fn get_config(&self, user_id: &str) -> (r: Option<UserDAcls>)
        ensures
            r is Some <==> self@.contains_key(user_id@),
            r matches Some(c) ==> c.deep_view() == self@[user_id@],
    {
        let key: String = user_id.to_owned();
        let n = self.entries.len();
        let mut i: usize = n;
        while i > 0
            invariant
                0 <= i <= n,
                n == self.entries@.len(),
                key@ == user_id@,
                forall|j: int| i <= j < n ==> (#[trigger] self.entries@[j].0)@ != user_id@,
            decreases i,
        {
            i = i - 1;
            if self.entries[i].0 == key {
                proof {
                    lemma_registered_map_found(self.entries@, i as int, user_id@);
                }
                return Some(self.entries[i].1.clone());
            }
        }
        proof {
            lemma_registered_map_absent(self.entries@, user_id@);
        }
        None
    }
}

/// Law: registering a rule set and then looking the same identity up
/// yields exactly that rule set, and registering one identity neither
/// creates nor changes the entry of any other.
pub proof fn lemma_lookup_after_register(
    m: Map<Seq<char>, UserDAclsV>,
    u: Seq<char>,
    r: UserDAclsV,
    other: Seq<char>,
)
    requires
        other != u,
    ensures
        m.insert(u, r).contains_key(u),
        m.insert(u, r)[u] == r,
        m.insert(u, r).contains_key(other) == m.contains_key(other),
        m.contains_key(other) ==> m.insert(u, r)[other] == m[other],
{
}

} // verus!
