//! Cache of token counts per chat entry.
use vstd::prelude::*;
use std::collections::HashMap;
use crate::entry::ChatEntryId;

verus! {

broadcast use vstd::std_specs::hash::group_hash_axioms;

/// Token counts per chat entry, keyed by entry id. Written by the token
/// counter, read by the minimap and the prune report; never persisted.
#[derive(Debug, Clone)]
pub struct EntryTokenCache {
    entries: HashMap<u64, u32>,
}

impl View for EntryTokenCache {
    type V = Map<u64, u32>;

    closed spec fn view(&self) -> Map<u64, u32> {
        self.entries@
    }
}

impl EntryTokenCache {
    /// An empty cache.
    pub fn new() -> (c: EntryTokenCache)
        ensures
            c@ == Map::<u64, u32>::empty(),
    {
        EntryTokenCache { entries: HashMap::new() }
    }

    /// The cached count for an entry, if any.
    pub fn get(&self, id: &ChatEntryId) -> (r: Option<u32>)
        ensures
            r == (if self@.contains_key(id.0) { Some(self@[id.0]) } else { None::<u32> }),
    {
        match self.entries.get(&id.0) {
            Some(v) => Some(*v),
            None => None,
        }
    }

    /// Stores a count for an entry, replacing any previous one.
    pub fn insert(&mut self, id: ChatEntryId, count: u32)
        ensures
            final(self)@ == old(self)@.insert(id.0, count),
    {
        self.entries.insert(id.0, count);
    }

    /// Whether a count is cached for this entry.
    pub fn contains(&self, id: &ChatEntryId) -> (b: bool)
        ensures
            b == self@.contains_key(id.0),
    {
        self.entries.contains_key(&id.0)
    }

    /// Removes every cached count.
    pub fn clear(&mut self)
        ensures
            final(self)@ == Map::<u64, u32>::empty(),
    {
        self.entries.clear();
    }

    /// Stores counts for several entries; later pairs win over earlier ones
    /// with the same id.
    pub fn bulk_insert(&mut self, pairs: Vec<(ChatEntryId, u32)>)
        ensures
            final(self)@ == bulk_inserted(old(self)@, pairs@),
    {
        let n = pairs.len();
        let mut i: usize = 0;
        while i < n
            invariant
                n == pairs@.len(),
                0 <= i <= n,
                self@ == bulk_inserted(old(self)@, pairs@.take(i as int)),
            decreases n - i,
        {
            let (id, count) = pairs[i];
            self.entries.insert(id.0, count);
            assert(pairs@.take(i + 1).drop_last() == pairs@.take(i as int));
            assert(pairs@.take(i + 1).last() == pairs@[i as int]);
            i = i + 1;
        }
        assert(pairs@.take(n as int) == pairs@);
    }
}

/// The map after inserting each pair of `pairs` in order.
pub open spec fn bulk_inserted(m: Map<u64, u32>, pairs: Seq<(ChatEntryId, u32)>) -> Map<u64, u32>
    decreases pairs.len(),
{
    if pairs.len() == 0 {
        m
    } else {
        let last = pairs.last();
        bulk_inserted(m, pairs.drop_last()).insert(last.0.0, last.1)
    }
}

/// A count read back after it is stored is the count stored; storing it
/// changes no other entry's count, and a cleared cache holds none.
pub proof fn lemma_cache_read_after_write(c: Map<u64, u32>, id: ChatEntryId, count: u32, other: ChatEntryId)
    requires
        other != id,
    ensures
        c.insert(id.0, count).contains_key(id.0) && c.insert(id.0, count)[id.0] == count,
        c.insert(id.0, count).contains_key(other.0) == c.contains_key(other.0),
        c.contains_key(other.0) ==> c.insert(id.0, count)[other.0] == c[other.0],
        !Map::<u64, u32>::empty().contains_key(id.0),
{
}

/// Storing counts in bulk is storing them one at a time, in order: when
/// `steps[0]` is `m` and each `steps[k + 1]` is `steps[k]` with pair `k`
/// inserted, the last of them is the bulk result.
pub proof fn lemma_bulk_insert_is_successive_inserts(
    m: Map<u64, u32>,
    pairs: Seq<(ChatEntryId, u32)>,
    steps: Seq<Map<u64, u32>>,
)
    requires
        steps.len() == pairs.len() + 1,
        steps[0] == m,
        forall|k: int| 0 <= k < pairs.len() ==> steps[k + 1] == #[trigger] steps[k].insert(pairs[k].0.0, pairs[k].1),
    ensures
        steps.last() == bulk_inserted(m, pairs),
{
    lemma_bulk_insert_prefix(m, pairs, steps, pairs.len() as int);
    assert(pairs.take(pairs.len() as int) == pairs);
}

/// Each step is the bulk result of the pairs before it.
proof fn lemma_bulk_insert_prefix(
    m: Map<u64, u32>,
    pairs: Seq<(ChatEntryId, u32)>,
    steps: Seq<Map<u64, u32>>,
    k: int,
)
    requires
        0 <= k <= pairs.len(),
        steps.len() == pairs.len() + 1,
        steps[0] == m,
        forall|j: int| 0 <= j < pairs.len() ==> steps[j + 1] == #[trigger] steps[j].insert(pairs[j].0.0, pairs[j].1),
    ensures
        steps[k] == bulk_inserted(m, pairs.take(k)),
    decreases k,
{
    if k > 0 {
        lemma_bulk_insert_prefix(m, pairs, steps, k - 1);
        assert(pairs.take(k).drop_last() == pairs.take(k - 1));
        assert(pairs.take(k).last() == pairs[k - 1]);
        assert(steps[k] == steps[k - 1].insert(pairs[k - 1].0.0, pairs[k - 1].1));
    }
}

/// After a bulk insert, an id holds the count of its last pair; an id with
/// no pair keeps what it had.
pub proof fn lemma_bulk_insert_last_pair_wins(m: Map<u64, u32>, pairs: Seq<(ChatEntryId, u32)>, x: u64)
    ensures
        forall|k: int|
            0 <= k < pairs.len() && #[trigger] pairs[k].0.0 == x && (forall|j: int| k < j < pairs.len() ==> pairs[j].0.0 != x)
                ==> bulk_inserted(m, pairs).contains_key(x) && bulk_inserted(m, pairs)[x] == pairs[k].1,
        (forall|j: int| 0 <= j < pairs.len() ==> pairs[j].0.0 != x) ==> bulk_inserted(m, pairs).contains_key(x)
            == m.contains_key(x) && (m.contains_key(x) ==> bulk_inserted(m, pairs)[x] == m[x]),
    decreases pairs.len(),
{
    if pairs.len() > 0 {
        let rest = pairs.drop_last();
        lemma_bulk_insert_last_pair_wins(m, rest, x);
        assert forall|k: int|
            0 <= k < pairs.len() && #[trigger] pairs[k].0.0 == x && (forall|j: int| k < j < pairs.len() ==> pairs[j].0.0 != x)
                implies bulk_inserted(m, pairs).contains_key(x) && bulk_inserted(m, pairs)[x] == pairs[k].1 by {
            if k < pairs.len() - 1 {
                assert(pairs[pairs.len() - 1].0.0 != x);
                assert(rest[k].0.0 == x);
                assert forall|j: int| k < j < rest.len() implies rest[j].0.0 != x by {
                    assert(rest[j] == pairs[j]);
                }
            }
        }
        if forall|j: int| 0 <= j < pairs.len() ==> pairs[j].0.0 != x {
            assert(pairs[pairs.len() - 1].0.0 != x);
            assert forall|j: int| 0 <= j < rest.len() implies rest[j].0.0 != x by {
                assert(rest[j] == pairs[j]);
            }
        }
    }
}

} // verus!
