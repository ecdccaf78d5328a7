//! A table of owner-to-consumer access grants.
use vstd::prelude::*;
use crate::primitives::Address;

verus! {

/// One owner-to-consumer capability; `expires_at` is zero when the grant
/// never expires.
#[derive(Clone, Copy, Debug, PartialEq, Eq)]
pub struct AccessGrant {
    pub owner: Address,
    pub consumer: Address,
    pub active: bool,
    pub expires_at: u64,
}

/// The (owner, consumer) pair a grant is keyed by.
pub open spec fn grant_key(g: AccessGrant) -> (Seq<u8>, Seq<u8>) {
    (g.owner@, g.consumer@)
}

/// The stored (active, expires_at) state of a pair; a pair never granted reads
/// as inactive with no expiry.
pub open spec fn grant_state(m: Map<(Seq<u8>, Seq<u8>), (bool, u64)>, owner: Seq<u8>, consumer: Seq<u8>) -> (bool, u64) {
    if m.contains_key((owner, consumer)) {
        m[(owner, consumer)]
    } else {
        (false, 0)
    }
}

/// Access is live at time `now`: the grant is active and, if it has an
/// expiry, `now` has not passed it.
pub open spec fn access_live(state: (bool, u64), now: u64) -> bool {
    state.0 && (state.1 == 0 || now <= state.1)
}

/// Grants keyed by (owner, consumer), at most one entry per pair.
pub struct AccessTable {
    entries: Vec<AccessGrant>,
}

/// Some entry of `e` has key `k`.
pub open spec fn has_key(e: Seq<AccessGrant>, k: (Seq<u8>, Seq<u8>)) -> bool {
    exists|i: int| 0 <= i < e.len() && grant_key(e[i]) == k
}

/// An index of `e` whose entry has key `k`.
pub open spec fn index_of(e: Seq<AccessGrant>, k: (Seq<u8>, Seq<u8>)) -> int {
    choose|i: int| 0 <= i < e.len() && grant_key(e[i]) == k
}

/// No two entries of `e` share a key.
pub open spec fn keys_unique(e: Seq<AccessGrant>) -> bool {
    forall|i: int, j: int|
        0 <= i < e.len() && 0 <= j < e.len() && grant_key(e[i]) == grant_key(e[j]) ==> i == j
}

/// The map from key to (active, expires_at) that a list of entries stands for.
pub open spec fn entries_map(e: Seq<AccessGrant>) -> Map<(Seq<u8>, Seq<u8>), (bool, u64)> {
    Map::new(
        |k: (Seq<u8>, Seq<u8>)| has_key(e, k),
        |k: (Seq<u8>, Seq<u8>)| (e[index_of(e, k)].active, e[index_of(e, k)].expires_at),
    )
}

proof fn lemma_index_of(e: Seq<AccessGrant>, i: int)
    requires
        keys_unique(e),
        0 <= i < e.len(),
    ensures
        has_key(e, grant_key(e[i])),
        index_of(e, grant_key(e[i])) == i,
{
    assert(has_key(e, grant_key(e[i])));
}

impl View for AccessTable {
    type V = Map<(Seq<u8>, Seq<u8>), (bool, u64)>;

    closed spec fn view(&self) -> Map<(Seq<u8>, Seq<u8>), (bool, u64)> {
        entries_map(self.entries@)
    }
}

impl AccessTable {
    /// The table's internal invariant.
    pub closed spec fn wf(&self) -> bool {
        keys_unique(self.entries@)
    }

    /// An empty table.
    pub fn new() -> (r: AccessTable)
        ensures
            r.wf(),
            r@ == Map::<(Seq<u8>, Seq<u8>), (bool, u64)>::empty(),
    {
        let r = AccessTable { entries: Vec::new() };
        assert(r@ =~= Map::<(Seq<u8>, Seq<u8>), (bool, u64)>::empty());
        r
    }

    fn find(&self, owner: &Address, consumer: &Address) -> (r: Option<usize>)
        ensures
            r matches Some(i) ==> i < self.entries@.len() && grant_key(self.entries@[i as int])
                == (owner@, consumer@),
            r is None ==> !has_key(self.entries@, (owner@, consumer@)),
    {
        let mut i: usize = 0;
        while i < self.entries.len()
            invariant
                0 <= i <= self.entries@.len(),
                forall|j: int|
                    0 <= j < i ==> grant_key(#[trigger] self.entries@[j]) != (owner@, consumer@),
            decreases self.entries@.len() - i,
        {
            let g = &self.entries[i];
            if g.owner.same(owner) && g.consumer.same(consumer) {
                return Some(i);
            }
            i = i + 1;
        }
        None
    }

    /// The stored (active, expires_at) state of the pair.
    pub fn get(&self, owner: &Address, consumer: &Address) -> (r: (bool, u64))
        requires
            self.wf(),
        ensures
            r == grant_state(self@, owner@, consumer@),
    {
        match self.find(owner, consumer) {
            Some(i) => {
                proof {
                    lemma_index_of(self.entries@, i as int);
                }
                (self.entries[i].active, self.entries[i].expires_at)
            },
            None => (false, 0),
        }
    }

    /// Stores the state of the pair, replacing any earlier one.
    pub fn set(&mut self, owner: Address, consumer: Address, active: bool, expires_at: u64)
        requires
            old(self).wf(),
        ensures
            final(self).wf(),
            final(self)@ == old(self)@.insert((owner@, consumer@), (active, expires_at)),
    {
        let g = AccessGrant { owner, consumer, active, expires_at };
        let ghost k = (owner@, consumer@);
        let ghost e0 = self.entries@;
        match self.find(&owner, &consumer) {
            Some(i) => {
                self.entries.set(i, g);
                let ghost e1 = self.entries@;
                assert(keys_unique(e1)) by {
                    assert(forall|j: int| 0 <= j < e1.len() ==> grant_key(#[trigger] e1[j]) == grant_key(e0[j]));
                }
                assert forall|q: (Seq<u8>, Seq<u8>)| has_key(e1, q) == has_key(e0, q) by {
                    if has_key(e0, q) {
                        let j = index_of(e0, q);
                        assert(grant_key(e1[j]) == q);
                    }
                    if has_key(e1, q) {
                        let j = index_of(e1, q);
                        assert(grant_key(e0[j]) == q);
                    }
                }
                assert forall|q: (Seq<u8>, Seq<u8>)| has_key(e1, q) implies #[trigger] entries_map(e1)[q]
                    == entries_map(e0).insert(k, (active, expires_at))[q] by {
                    let j = index_of(e1, q);
                    lemma_index_of(e1, j);
                    lemma_index_of(e0, j);
                    lemma_index_of(e1, i as int);
                }
                assert(self@ =~= old(self)@.insert(k, (active, expires_at)));
            },
            None => {
                self.entries.push(g);
                let ghost e1 = self.entries@;
                let ghost n = e0.len() as int;
                assert(grant_key(e1[n]) == k);
                assert(keys_unique(e1)) by {
                    assert forall|a: int, b: int|
                        0 <= a < e1.len() && 0 <= b < e1.len() && grant_key(e1[a]) == grant_key(
                            e1[b],
                        ) implies a == b by {
                        if a < n && b < n {
                            assert(grant_key(e0[a]) == grant_key(e0[b]));
                        } else if a < n {
                            assert(grant_key(e0[a]) == k);
                        } else if b < n {
                            assert(grant_key(e0[b]) == k);
                        }
                    }
                }
                assert forall|q: (Seq<u8>, Seq<u8>)| has_key(e1, q) == (has_key(e0, q) || q == k) by {
                    if has_key(e0, q) {
                        let j = index_of(e0, q);
                        assert(grant_key(e1[j]) == q);
                    }
                    if has_key(e1, q) && q != k {
                        let j = index_of(e1, q);
                        assert(j < n);
                        assert(grant_key(e0[j]) == q);
                    }
                }
                assert forall|q: (Seq<u8>, Seq<u8>)| has_key(e1, q) implies #[trigger] entries_map(e1)[q]
                    == entries_map(e0).insert(k, (active, expires_at))[q] by {
                    let j = index_of(e1, q);
                    lemma_index_of(e1, j);
                    if j < n {
                        assert(e0[j] == e1[j]);
                        lemma_index_of(e0, j);
                    }
                }
                assert(self@ =~= old(self)@.insert(k, (active, expires_at)));
            },
        }
    }
}

} // verus!
