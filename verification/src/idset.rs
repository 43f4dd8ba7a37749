//! A set of entry ids held as a vector without duplicates.
use vstd::prelude::*;
use crate::entry::ChatEntryId;

verus! {

/// A finite set of chat entry ids; the vector never holds an id twice. (The
/// session that owns it is cloned, and a std hash set has no clone that
/// Verus can call.)
#[derive(Debug, Clone)]
pub struct IdSet {
    items: Vec<u64>,
}

impl View for IdSet {
    type V = Set<u64>;

    closed spec fn view(&self) -> Set<u64> {
        self.items@.to_set()
    }
}

impl IdSet {
    /// No id is stored twice.
    pub closed spec fn wf(&self) -> bool {
        self.items@.no_duplicates()
    }

    /// The empty set.
    pub fn new() -> (s: IdSet)
        ensures
            s@ == Set::<u64>::empty(),
            s.wf(),
    {
        let s = IdSet { items: Vec::new() };
        assert(s@ =~= Set::<u64>::empty());
        s
    }

    fn position(&self, id: u64) -> (r: Option<usize>)
        ensures
            match r {
                Some(i) => i < self.items@.len() && self.items@[i as int] == id,
                None => !self@.contains(id),
            },
    {
        let n = self.items.len();
        let mut i: usize = 0;
        while i < n
            invariant
                n == self.items@.len(),
                0 <= i <= n,
                forall|j: int| 0 <= j < i ==> self.items@[j] != id,
            decreases n - i,
        {
            if self.items[i] == id {
                return Some(i);
            }
            i = i + 1;
        }
        None
    }

    /// Whether `id` is in the set.
    pub fn contains(&self, id: &ChatEntryId) -> (b: bool)
        ensures
            b == self@.contains(id.0),
    {
        match self.position(id.0) {
            Some(i) => {
                assert(self.items@.contains(id.0));
                true
            },
            None => false,
        }
    }

    /// Adds `id`; returns whether it was absent.
    pub fn insert(&mut self, id: ChatEntryId) -> (added: bool)
        requires
            old(self).wf(),
        ensures
            final(self).wf(),
            final(self)@ == old(self)@.insert(id.0),
            added == !old(self)@.contains(id.0),
    {
        match self.position(id.0) {
            Some(i) => {
                assert(self.items@.contains(id.0));
                assert(self@ =~= old(self)@.insert(id.0));
                false
            },
            None => {
                let ghost before = self.items@;
                self.items.push(id.0);
                proof {
                    assert(self.items@ == before.push(id.0));
                    assert(self@ =~= before.to_set().insert(id.0)) by {
                        assert forall|x: u64| self@.contains(x) implies before.to_set().insert(id.0).contains(x) by {
                            let k = choose|k: int| 0 <= k < self.items@.len() && self.items@[k] == x;
                            if k < before.len() {
                                assert(before[k] == x);
                            }
                        }
                        assert forall|x: u64| before.to_set().insert(id.0).contains(x) implies self@.contains(x) by {
                            if x == id.0 {
                                assert(self.items@[before.len() as int] == x);
                            } else {
                                let k = choose|k: int| 0 <= k < before.len() && before[k] == x;
                                assert(self.items@[k] == x);
                            }
                        }
                    }
                }
                true
            },
        }
    }

    /// Removes `id`; returns whether it was present.
    pub fn remove(&mut self, id: &ChatEntryId) -> (removed: bool)
        requires
            old(self).wf(),
        ensures
            final(self).wf(),
            final(self)@ == old(self)@.remove(id.0),
            removed == old(self)@.contains(id.0),
    {
        match self.position(id.0) {
            Some(i) => {
                let ghost before = self.items@;
                self.items.remove(i);
                proof {
                    assert(self.items@ == before.remove(i as int));
                    assert(self@ =~= before.to_set().remove(id.0)) by {
                        assert forall|x: u64| self@.contains(x) implies before.to_set().remove(id.0).contains(x) by {
                            let k = choose|k: int| 0 <= k < self.items@.len() && self.items@[k] == x;
                            if k < i {
                                assert(before[k] == x);
                                assert(k != i);
                            } else {
                                assert(before[k + 1] == x);
                            }
                        }
                        assert forall|x: u64| before.to_set().remove(id.0).contains(x) implies self@.contains(x) by {
                            let k = choose|k: int| 0 <= k < before.len() && before[k] == x;
                            if k < i {
                                assert(self.items@[k] == x);
                            } else {
                                assert(k != i);
                                assert(self.items@[k - 1] == x);
                            }
                        }
                    }
                    assert(before.contains(id.0));
                }
                true
            },
            None => {
                assert(self@ =~= old(self)@.remove(id.0));
                false
            },
        }
    }

    /// Adds `id` when absent, removes it when present.
    pub fn toggle(&mut self, id: ChatEntryId)
        requires
            old(self).wf(),
        ensures
            final(self).wf(),
            old(self)@.contains(id.0) ==> final(self)@ == old(self)@.remove(id.0),
            !old(self)@.contains(id.0) ==> final(self)@ == old(self)@.insert(id.0),
    {
        if self.contains(&id) {
            self.remove(&id);
        } else {
            self.insert(id);
        }
    }
}

} // verus!
