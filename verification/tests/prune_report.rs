use jinn_domain::entry::{ChangeSource, ChatEntry, ChatEntryId, ContextOverride};
use jinn_domain::prune::{prune_report, COMPACTION_WORKER_NAME};
use jinn_domain::token_cache::EntryTokenCache;

const PRUNER_NAME: &str = "edit_read";

fn worker_prune(entry: &mut ChatEntry) {
    entry.apply_context_override(
        ContextOverride::ForcedExclude,
        ChangeSource::Worker { name: PRUNER_NAME.to_owned() },
    );
}

#[test]
fn counts_worker_excluded_entry_tokens() {
    let mut entry = ChatEntry::user(ChatEntryId(1), "big tool output");
    worker_prune(&mut entry);
    let mut cache = EntryTokenCache::new();
    cache.insert(entry.id, 300);
    let report = prune_report(std::slice::from_ref(&entry), &cache);
    assert_eq!(report.tokens, 300);
    assert_eq!(report.entries, 1);
}

#[test]
fn skips_compaction_sourced_excludes() {
    let mut entry = ChatEntry::user(ChatEntryId(1), "summarized away");
    entry.apply_context_override(
        ContextOverride::ForcedExclude,
        ChangeSource::Worker { name: COMPACTION_WORKER_NAME.to_owned() },
    );
    let mut cache = EntryTokenCache::new();
    cache.insert(entry.id, 300);
    let report = prune_report(std::slice::from_ref(&entry), &cache);
    assert_eq!(report.tokens, 0);
    assert_eq!(report.entries, 0);
}

#[test]
fn skips_user_sourced_excludes() {
    let mut entry = ChatEntry::user(ChatEntryId(1), "user ignored this");
    entry.apply_context_override(ContextOverride::ForcedExclude, ChangeSource::User);
    let mut cache = EntryTokenCache::new();
    cache.insert(entry.id, 300);
    let report = prune_report(std::slice::from_ref(&entry), &cache);
    assert_eq!(report.tokens, 0);
    assert_eq!(report.entries, 0);
}

#[test]
fn drops_reincluded_entries() {
    let mut entry = ChatEntry::user(ChatEntryId(1), "brought back");
    worker_prune(&mut entry);
    entry.apply_context_override(ContextOverride::ForcedInclude, ChangeSource::User);
    let mut cache = EntryTokenCache::new();
    cache.insert(entry.id, 300);
    let report = prune_report(std::slice::from_ref(&entry), &cache);
    assert_eq!(report.tokens, 0);
    assert_eq!(report.entries, 0);
}

#[test]
fn skips_pending_only_prunes() {
    // A prune still waiting to be applied leaves the entry at its default
    // override, so it is not counted.
    let entry = ChatEntry::user(ChatEntryId(1), "not yet flushed");
    let cache = EntryTokenCache::new();
    let report = prune_report(std::slice::from_ref(&entry), &cache);
    assert_eq!(report.tokens, 0);
    assert_eq!(report.entries, 0);
}

#[test]
fn missing_token_count_contributes_zero_but_entry_counts() {
    let mut entry = ChatEntry::user(ChatEntryId(1), "uncounted");
    worker_prune(&mut entry);
    let cache = EntryTokenCache::new();
    let report = prune_report(std::slice::from_ref(&entry), &cache);
    assert_eq!(report.tokens, 0);
    assert_eq!(report.entries, 1);
}

#[test]
fn empty_history_yields_zero_report() {
    let cache = EntryTokenCache::new();
    let report = prune_report(&[], &cache);
    assert_eq!(report.tokens, 0);
    assert_eq!(report.entries, 0);
}

#[test]
fn unattributed_exclude_not_counted() {
    let entry = ChatEntry::user(ChatEntryId(1), "restored without audit")
        .with_context_override(ContextOverride::ForcedExclude);
    let mut cache = EntryTokenCache::new();
    cache.insert(entry.id, 300);
    let report = prune_report(std::slice::from_ref(&entry), &cache);
    assert_eq!(report.tokens, 0);
    assert_eq!(report.entries, 0);
}

#[test]
fn prune_report_sums_several_pruned_entries() {
    let mut a = ChatEntry::user(ChatEntryId(1), "a");
    let mut b = ChatEntry::user(ChatEntryId(2), "b");
    let c = ChatEntry::user(ChatEntryId(3), "c");
    worker_prune(&mut a);
    worker_prune(&mut b);
    let mut cache = EntryTokenCache::new();
    cache.insert(a.id, 100);
    cache.insert(b.id, 250);
    cache.insert(c.id, 999);
    let report = prune_report(&[a, b, c], &cache);
    assert_eq!(report.tokens, 350);
    assert_eq!(report.entries, 2);
}
