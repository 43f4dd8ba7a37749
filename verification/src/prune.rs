//! Totals of the history entries that auto-prune workers currently exclude.
use vstd::prelude::*;
use vstd::string::*;
use crate::entry::{ChangeSource, ChatEntry, ContextOverride};
use crate::token_cache::EntryTokenCache;

verus! {

/// The name of the compaction worker. Compaction excludes entries the same
/// way pruners do, so the name is what keeps it out of the pruned total.
pub const COMPACTION_WORKER_NAME: &'static str = "compaction";

/// Result of scanning history for applied auto-pruner exclusions.
#[derive(Debug, Clone, Copy, PartialEq, Eq, Structural)]
pub struct PruneReport {
    /// Sum of the cached token counts of the counted entries (entries
    /// without a cached count add zero).
    pub tokens: u64,
    /// Number of counted entries.
    pub entries: usize,
}

/// Whether the entry is excluded by a pruner worker: its override is still
/// `ForcedExclude` and its latest recorded change came from a worker other
/// than compaction.
pub open spec fn pruned_by_worker(e: ChatEntry) -> bool {
    &&& e.context_history@.len() > 0
    &&& e.context_override == ContextOverride::ForcedExclude
    &&& match e.context_history@.last().source {
        ChangeSource::Worker { name } => name@ != COMPACTION_WORKER_NAME@,
        _ => false,
    }
}

/// The cached count of an entry, zero when missing.
pub open spec fn cached_or_zero(cache: Map<u64, u32>, e: ChatEntry) -> int {
    if cache.contains_key(e.id.0) {
        cache[e.id.0] as int
    } else {
        0
    }
}

/// Sum of cached counts over the pruned entries of `h`.
pub open spec fn pruned_tokens(h: Seq<ChatEntry>, cache: Map<u64, u32>) -> int
    decreases h.len(),
{
    if h.len() == 0 {
        0
    } else {
        pruned_tokens(h.drop_last(), cache) + if pruned_by_worker(h.last()) {
            cached_or_zero(cache, h.last())
        } else {
            0
        }
    }
}

/// Number of pruned entries of `h`.
pub open spec fn pruned_count(h: Seq<ChatEntry>) -> int
    decreases h.len(),
{
    if h.len() == 0 {
        0
    } else {
        pruned_count(h.drop_last()) + if pruned_by_worker(h.last()) {
            1int
        } else {
            0
        }
    }
}

proof fn lemma_pruned_bounds(h: Seq<ChatEntry>, cache: Map<u64, u32>)
    ensures
        0 <= pruned_count(h) <= h.len(),
        0 <= pruned_tokens(h, cache) <= h.len() * 0xffff_ffff,
    decreases h.len(),
{
    if h.len() > 0 {
        lemma_pruned_bounds(h.drop_last(), cache);
    }
}

/// Removing one entry from the history changes the totals by that entry's
/// own share.
proof fn lemma_pruned_remove(h: Seq<ChatEntry>, cache: Map<u64, u32>, i: int)
    requires
        0 <= i < h.len(),
    ensures
        pruned_count(h) == pruned_count(h.remove(i)) + if pruned_by_worker(h[i]) { 1int } else { 0 },
        pruned_tokens(h, cache) == pruned_tokens(h.remove(i), cache) + if pruned_by_worker(h[i]) {
            cached_or_zero(cache, h[i])
        } else {
            0
        },
    decreases h.len(),
{
    if i == h.len() - 1 {
        assert(h.remove(i) =~= h.drop_last());
    } else {
        lemma_pruned_remove(h.drop_last(), cache, i);
        assert(h.remove(i).drop_last() =~= h.drop_last().remove(i));
        assert(h.remove(i).last() == h.last());
        assert(h.drop_last()[i] == h[i]);
    }
}

/// Only pruner workers count: an entry whose latest context change was made
/// by the user or internally (or by the compaction worker), or that has no
/// recorded change, or that is not excluded, adds neither an entry nor
/// tokens to the prune report.
pub proof fn lemma_prune_report_ignores_non_pruners(h: Seq<ChatEntry>, cache: Map<u64, u32>, i: int)
    requires
        0 <= i < h.len(),
        h[i].context_history@.len() == 0 || h[i].context_override != ContextOverride::ForcedExclude || match h[
            i
        ].context_history@.last().source {
            ChangeSource::Worker { name } => name@ == COMPACTION_WORKER_NAME@,
            ChangeSource::User => true,
            ChangeSource::Internal { .. } => true,
        },
    ensures
        pruned_count(h) == pruned_count(h.remove(i)),
        pruned_tokens(h, cache) == pruned_tokens(h.remove(i), cache),
{
    lemma_pruned_remove(h, cache, i);
}

/// An excluded entry whose latest context change came from a worker other
/// than compaction adds one entry and its cached token count (zero when
/// none is cached) to the prune report.
pub proof fn lemma_prune_report_counts_pruners(h: Seq<ChatEntry>, cache: Map<u64, u32>, i: int)
    requires
        0 <= i < h.len(),
        h[i].context_history@.len() > 0,
        h[i].context_override == ContextOverride::ForcedExclude,
        h[i].context_history@.last().source matches ChangeSource::Worker { name } && name@ != COMPACTION_WORKER_NAME@,
    ensures
        pruned_count(h) == pruned_count(h.remove(i)) + 1,
        pruned_tokens(h, cache) == pruned_tokens(h.remove(i), cache) + if cache.contains_key(h[i].id.0) {
            cache[h[i].id.0] as int
        } else {
            0
        },
{
    lemma_pruned_remove(h, cache, i);
}

/// Whether the entry is currently excluded by an auto-prune worker.
pub fn is_pruned_by_worker(entry: &ChatEntry) -> (b: bool)
    ensures
        b == pruned_by_worker(*entry),
{
    let n = entry.context_history.len();
    if n == 0 {
        return false;
    }
    if entry.context_override != ContextOverride::ForcedExclude {
        return false;
    }
    match &entry.context_history[n - 1].source {
        ChangeSource::Worker { name } => *name != String::from_str(COMPACTION_WORKER_NAME),
        _ => false,
    }
}

/// Totals the entries currently excluded by auto-prune workers: how many
/// there are and the sum of their cached token counts.
pub fn prune_report(history: &[ChatEntry], token_cache: &EntryTokenCache) -> (r: PruneReport)
    requires
        history@.len() <= 0xffff_ffff,
    ensures
        r.tokens == pruned_tokens(history@, token_cache@),
        r.entries == pruned_count(history@),
{
    let n = history.len();
    let mut tokens: u64 = 0;
    let mut entries: usize = 0;
    let mut i: usize = 0;
    while i < n
        invariant
            n == history@.len(),
            n <= 0xffff_ffff,
            0 <= i <= n,
            tokens == pruned_tokens(history@.take(i as int), token_cache@),
            entries == pruned_count(history@.take(i as int)),
        decreases n - i,
    {
        let e = &history[i];
        proof {
            let t = history@.take(i + 1);
            assert(t.drop_last() == history@.take(i as int));
            assert(t.last() == history@[i as int]);
            lemma_pruned_bounds(history@.take(i as int), token_cache@);
        }
        if is_pruned_by_worker(e) {
            let c: u32 = match token_cache.get(&e.id) {
                Some(c) => c,
                None => 0,
            };
            assert(i * 0xffff_ffff + 0xffff_ffff <= 0xffff_ffff * 0xffff_ffff) by (nonlinear_arith)
                requires
                    i < 0xffff_ffff,
            ;
            tokens = tokens + c as u64;
            entries = entries + 1;
        }
        i = i + 1;
    }
    assert(history@.take(n as int) == history@);
    PruneReport { tokens, entries }
}

} // verus!
