//! The swap store: a keyed collection of swap records with insert-if-absent,
//! snapshot lookup, and guarded in-place transition commits. Keys are unique
//! and every stored record is well-formed.

use vstd::prelude::*;
use crate::commitment::verifies;
use crate::swap::{refunded_version, swap_wf, withdrawn_version, Swap};

verus! {

/// The keyed collection of swap records. Records are never removed: terminal
/// swaps stay queryable.
pub struct SwapStore {
    entries: Vec<(String, Swap)>,
}

impl SwapStore {
    /// The store is its sequence of (key, record) entries, in insertion
    /// order.
    pub closed spec fn view(&self) -> Seq<(String, Swap)> {
        self.entries@
    }

    /// No two entries share a key.
    pub open spec fn ids_unique(self) -> bool {
        forall|i: int, j: int|
            0 <= i < j < self@.len() ==> self@[i].0@ != self@[j].0@
    }

    /// Every stored record is well-formed.
    pub open spec fn all_wf(self) -> bool {
        forall|i: int| 0 <= i < self@.len() ==> swap_wf(#[trigger] self@[i].1)
    }

    /// Store invariant: unique keys, well-formed records.
    pub open spec fn wf(self) -> bool {
        self.ids_unique() && self.all_wf()
    }

    /// Whether some entry has this key.
    pub open spec fn has_id(self, id: Seq<char>) -> bool {
        exists|i: int| 0 <= i < self@.len() && (#[trigger] self@[i].0)@ == id
    }

    /// The position of the entry with this key (meaningful when the key is
    /// present and keys are unique).
    pub open spec fn idx_of(self, id: Seq<char>) -> int {
        choose|i: int| 0 <= i < self@.len() && (#[trigger] self@[i].0)@ == id
    }

    /// The record stored under this key.
    pub open spec fn swap_of(self, id: Seq<char>) -> Swap {
        self@[self.idx_of(id)].1
    }

    /// With unique keys, any position holding the key is the position
    /// `idx_of` picks.
    pub proof fn lemma_idx_of_unique(self, id: Seq<char>, i: int)
        requires
            self.ids_unique(),
            0 <= i < self@.len(),
            self@[i].0@ == id,
        ensures
            self.has_id(id),
            self.idx_of(id) == i,
    {
        assert(self.has_id(id));
        let j = self.idx_of(id);
        assert(0 <= j < self@.len() && self@[j].0@ == id);
        if i < j {
            assert(self@[i].0@ != self@[j].0@);
        } else if j < i {
            assert(self@[j].0@ != self@[i].0@);
        }
    }

    /// An empty store.
    pub fn new() -> (s: SwapStore)
        ensures
            s@ == Seq::<(String, Swap)>::empty(),
            s.wf(),
    {
        SwapStore { entries: Vec::new() }
    }

    /// How many records the store holds.
    pub fn len(&self) -> (n: usize)
        ensures
            n == self@.len(),
    {
        self.entries.len()
    }

    /// A copy of the entry at a position.
    pub fn entry_at(&self, i: usize) -> (e: (String, Swap))
        requires
            i < self@.len(),
        ensures
            e.0 == self@[i as int].0,
            e.1 == self@[i as int].1,
    {
        let entry = &self.entries[i];
        (entry.0.clone(), entry.1.clone())
    }

    /// The position of the entry with this key, if any.
    pub fn find_index(&self, swap_id: &String) -> (r: Option<usize>)
        ensures
            match r {
                Some(i) => {
                    &&& i < self@.len()
                    &&& self@[i as int].0@ == swap_id@
                    &&& self.has_id(swap_id@)
                    &&& (self.ids_unique() ==> i == self.idx_of(swap_id@))
                },
                None => !self.has_id(swap_id@),
            },
    {
        let n = self.entries.len();
        let mut i: usize = 0;
        while i < n
            invariant
                n == self@.len(),
                i <= n,
                forall|k: int| 0 <= k < i ==> (#[trigger] self@[k].0)@ != swap_id@,
            decreases n - i,
        {
            if self.entries[i].0 == *swap_id {
                proof {
                    if self.ids_unique() {
                        self.lemma_idx_of_unique(swap_id@, i as int);
                    }
                }
                return Some(i);
            }
            i += 1;
        }
        None
    }

    /// A snapshot copy of the record under this key, if any.
    pub fn get(&self, swap_id: &String) -> (r: Option<Swap>)
        requires
            self.wf(),
        ensures
            match r {
                Some(s) => self.has_id(swap_id@) && s == self.swap_of(swap_id@),
                None => !self.has_id(swap_id@),
            },
    {
        match self.find_index(swap_id) {
            Some(i) => Some(self.entries[i].1.clone()),
            None => None,
        }
    }

    /// Atomic check-and-insert: stores the record under the key unless the
    /// key is already present, in which case nothing changes.
    pub fn insert_if_absent(&mut self, swap_id: String, swap: Swap) -> (r: bool)
        requires
            old(self).wf(),
            swap_wf(swap),
        ensures
            final(self).wf(),
            r == !old(self).has_id(swap_id@),
            r ==> final(self)@ == old(self)@.push((swap_id, swap)),
            !r ==> final(self)@ == old(self)@,
    {
        match self.find_index(&swap_id) {
            Some(_) => false,
            None => {
                proof {
                    assert forall|k: int| 0 <= k < self@.len() implies (
                    #[trigger] self@[k].0)@ != swap_id@ by {
                        if self@[k].0@ == swap_id@ {
                            assert(self.has_id(swap_id@));
                        }
                    }
                }
                self.entries.push((swap_id, swap));
                true
            },
        }
    }

    /// Commit a withdraw at a live position: set the withdrawn flag and
    /// record the revealed preimage; the rest of the record and the rest of
    /// the store are untouched.
    pub fn set_withdrawn_at(&mut self, i: usize, preimage: String)
        requires
            old(self).wf(),
            i < old(self)@.len(),
            !old(self)@[i as int].1.withdrawn,
            !old(self)@[i as int].1.refunded,
            verifies(preimage@, old(self)@[i as int].1.hashlock@),
        ensures
            final(self).wf(),
            final(self)@ == old(self)@.update(
                i as int,
                ((old(self)@[i as int].0, withdrawn_version(old(self)@[i as int].1, preimage))),
            ),
    {
        self.entries[i].1.withdrawn = true;
        self.entries[i].1.preimage = Some(preimage);
        proof {
            assert(self@ =~= old(self)@.update(
                i as int,
                ((old(self)@[i as int].0, withdrawn_version(old(self)@[i as int].1, preimage))),
            ));
        }
    }

    /// Commit a refund at a live position: set the refunded flag; the rest of
    /// the record and the rest of the store are untouched.
    pub fn set_refunded_at(&mut self, i: usize)
        requires
            old(self).wf(),
            i < old(self)@.len(),
            !old(self)@[i as int].1.withdrawn,
            !old(self)@[i as int].1.refunded,
        ensures
            final(self).wf(),
            final(self)@ == old(self)@.update(
                i as int,
                ((old(self)@[i as int].0, refunded_version(old(self)@[i as int].1))),
            ),
    {
        self.entries[i].1.refunded = true;
        proof {
            assert(self@ =~= old(self)@.update(
                i as int,
                ((old(self)@[i as int].0, refunded_version(old(self)@[i as int].1))),
            ));
        }
    }
}

} // verus!
