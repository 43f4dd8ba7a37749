use std::collections::HashMap;
use jinn_domain::session::{ChatSessionState, StreamingError};
use jinn_domain::stats_tree::aggregate_session_stats;
use jinn_domain::token_stats::{TokenRecord, TokenStats};
use jinn_domain::tree::collect_tree_ids;

fn record(sent: u32, received: u32, prompt: Option<u32>, cached: Option<u32>) -> TokenRecord {
    TokenRecord {
        timestamp: jiff::Timestamp::from_second(1_700_000_000).unwrap(),
        tokens_sent: sent,
        tokens_received: received,
        cost_bits: None,
        model_used: None,
        prompt_tokens: prompt,
        cached_tokens: cached,
    }
}

#[test]
fn from_ledger_returns_defaults_for_empty() {
    assert_eq!(TokenStats::from_ledger(&[]), TokenStats::zero());
}

#[test]
fn from_ledger_sums_single_record() {
    let s = TokenStats::from_ledger(&[record(100, 50, None, None)]);
    assert_eq!(s.total_sent, 100);
    assert_eq!(s.total_received, 50);
    assert_eq!(s.request_count, 1);
    assert_eq!(s.effective_sent, 100);
    assert_eq!(s.measured_sent, 0);
    assert_eq!(s.cached_total, 0);
}

#[test]
fn from_ledger_sums_multiple_records() {
    let s = TokenStats::from_ledger(&[record(100, 50, Some(120), Some(30)), record(200, 80, None, Some(5))]);
    assert_eq!(s.total_sent, 300);
    assert_eq!(s.total_received, 130);
    assert_eq!(s.request_count, 2);
    assert_eq!(s.effective_sent, 320);
    assert_eq!(s.measured_sent, 120);
    assert_eq!(s.cached_total, 35);
}

fn session(parent: Option<u64>, sent: u32, received: u32) -> ChatSessionState {
    let mut s = ChatSessionState::new();
    s.restore_parent_session(parent);
    s.push_token_record(record(sent, received, None, None));
    s
}

fn tree() -> HashMap<u64, ChatSessionState> {
    let mut map = HashMap::new();
    map.insert(1, session(None, 100, 200));
    map.insert(2, session(Some(1), 300, 400));
    map.insert(3, session(Some(2), 500, 600));
    map.insert(4, session(None, 7, 8));
    map
}

#[test]
fn aggregate_includes_all_descendants_once() {
    let map = tree();
    let stats = aggregate_session_stats(&map, &1);
    assert_eq!(stats.own.total_sent, 100);
    assert_eq!(stats.children.total_sent, 800);
    assert_eq!(stats.children.total_received, 1000);
    assert_eq!(stats.children.request_count, 2);
    assert_eq!(stats.total_sent(), 900);
    assert_eq!(stats.total_received(), 1200);
}

#[test]
fn aggregate_of_a_leaf_has_no_children() {
    let map = tree();
    let stats = aggregate_session_stats(&map, &3);
    assert_eq!(stats.own.total_sent, 500);
    assert_eq!(stats.children, TokenStats::zero());
}

#[test]
fn aggregate_for_unknown_session_returns_defaults() {
    let map = tree();
    let stats = aggregate_session_stats(&map, &42);
    assert_eq!(stats.own, TokenStats::zero());
    assert_eq!(stats.children, TokenStats::zero());
}

#[test]
fn collect_tree_ids_finds_the_whole_tree_from_any_member() {
    let mut links: HashMap<u64, Option<u64>> = HashMap::new();
    links.insert(1, None);
    links.insert(2, Some(1));
    links.insert(3, Some(2));
    links.insert(4, None);
    let ids = collect_tree_ids(&3, &links);
    let mut v: Vec<u64> = ids.into_iter().collect();
    v.sort();
    assert_eq!(v, vec![1, 2, 3]);
}

#[test]
fn collect_tree_ids_stops_on_a_cycle() {
    let mut links: HashMap<u64, Option<u64>> = HashMap::new();
    links.insert(1, Some(2));
    links.insert(2, Some(1));
    let ids = collect_tree_ids(&1, &links);
    assert!(ids.contains(&1));
    assert!(ids.contains(&2));
}

#[test]
fn finalize_last_token_record_needs_a_record() {
    let mut s = ChatSessionState::new();
    assert_eq!(s.finalize_last_token_record(5, None, None), Err(StreamingError::EmptyLedger));
    s.push_token_record(record(10, 0, None, None));
    assert_eq!(s.finalize_last_token_record(5, Some(0), Some("m".to_owned())), Ok(()));
    assert_eq!(s.token_ledger()[0].tokens_received, 5);
    assert_eq!(s.token_ledger()[0].model_used.as_deref(), Some("m"));
}

#[test]
fn aggregated_totals_sum_own_and_children() {
    let own = TokenStats::from_ledger(&[record(100, 50, None, None)]);
    let children = TokenStats::from_ledger(&[record(120, 60, None, None), record(80, 40, None, None)]);
    let agg = jinn_domain::token_stats::AggregatedTokenStats { own, children };
    assert_eq!(agg.total_sent(), 300);
    assert_eq!(agg.total_received(), 150);
}

#[test]
fn aggregate_returns_own_stats_for_session_with_no_children() {
    let mut sessions = HashMap::new();
    sessions.insert(10u64, session(None, 500, 250));
    let stats = aggregate_session_stats(&sessions, &10);
    assert_eq!(stats.own.total_sent, 500);
    assert_eq!(stats.own.total_received, 250);
    assert_eq!(stats.children.total_sent, 0);
}

#[test]
fn aggregate_includes_child_session_stats() {
    let mut sessions = HashMap::new();
    sessions.insert(1u64, session(None, 100, 50));
    sessions.insert(2u64, session(Some(1), 200, 100));
    let stats = aggregate_session_stats(&sessions, &1);
    assert_eq!(stats.own.total_sent, 100);
    assert_eq!(stats.own.total_received, 50);
    assert_eq!(stats.children.total_sent, 200);
    assert_eq!(stats.children.total_received, 100);
    assert_eq!(stats.total_sent(), 300);
    assert_eq!(stats.total_received(), 150);
}

#[test]
fn aggregate_handles_nested_children() {
    let mut sessions = HashMap::new();
    sessions.insert(1u64, session(None, 1000, 500));
    sessions.insert(2u64, session(Some(1), 500, 250));
    sessions.insert(3u64, session(Some(2), 200, 100));
    let stats = aggregate_session_stats(&sessions, &1);
    assert_eq!(stats.own.total_sent, 1000);
    assert_eq!(stats.children.total_sent, 700);
    assert_eq!(stats.total_sent(), 1700);
    assert_eq!(stats.total_received(), 850);
}
