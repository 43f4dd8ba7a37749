//! Token statistics of a session together with all of its descendant sessions.
use vstd::prelude::*;
use std::collections::{HashMap, HashSet};
use crate::ids::SessionId;
use crate::session::ChatSessionState;
use crate::token_stats::{add_model, fits_u64, ledger_model, stats_model, zero_model, AggregatedTokenStats, StatsModel, TokenStats};
use crate::tree::{in_tree_of, parent_link, tree_below};

verus! {

broadcast use vstd::std_specs::hash::group_hash_axioms;

/// The parent link of every session in `s`.
pub open spec fn parent_map(s: Map<SessionId, ChatSessionState>) -> Map<SessionId, Option<SessionId>> {
    s.map_values(|c: ChatSessionState| c.core.parent_session)
}

/// Whether `x` descends from `target`: following parent links from `x`
/// reaches `target` in one step or more.
pub open spec fn is_descendant(s: Map<SessionId, ChatSessionState>, target: SessionId, x: SessionId) -> bool {
    x != target && in_tree_of(parent_map(s), target, x)
}

/// Whether `target` descends from itself (its parent links form a cycle).
pub open spec fn descends_from_itself(s: Map<SessionId, ChatSessionState>, target: SessionId) -> bool {
    parent_link(parent_map(s), target) matches Some(p) && in_tree_of(parent_map(s), target, p)
}

/// The statistics of the ledgers of the sessions listed in `order`.
pub open spec fn order_sum(order: Seq<SessionId>, s: Map<SessionId, ChatSessionState>) -> StatsModel
    decreases order.len(),
{
    if order.len() == 0 {
        zero_model()
    } else {
        add_model(order_sum(order.drop_last(), s), ledger_model(s[order.last()].core.token_ledger@))
    }
}

/// `order` lists descendants of `target`, each once.
pub open spec fn some_descendants(order: Seq<SessionId>, s: Map<SessionId, ChatSessionState>, target: SessionId) -> bool {
    &&& order.no_duplicates()
    &&& forall|i: int| 0 <= i < order.len() ==> is_descendant(s, target, #[trigger] order[i])
}

/// `order` lists every descendant of `target`, each once.
pub open spec fn all_descendants(order: Seq<SessionId>, s: Map<SessionId, ChatSessionState>, target: SessionId) -> bool {
    &&& some_descendants(order, s, target)
    &&& forall|x: SessionId| is_descendant(s, target, x) ==> #[trigger] order.contains(x)
}

/// The parent link of every session.
fn parent_links(sessions: &HashMap<SessionId, ChatSessionState>) -> (r: HashMap<SessionId, Option<SessionId>>)
    ensures
        r@ == parent_map(sessions@),
{
    let ghost m = sessions@;
    let mut r: HashMap<SessionId, Option<SessionId>> = HashMap::new();
    for pair in it: sessions.iter()
        invariant
            m == sessions@,
            forall|c: SessionId| #[trigger] m.contains_key(c) ==> it.seq().contains((&c, &m[c])),
            forall|j: int| 0 <= j < it.seq().len() ==> #[trigger] m.contains_key(*it.seq()[j].0)
                && m[*it.seq()[j].0] == *it.seq()[j].1,
            forall|j: int| 0 <= j < it.index() ==> r@.contains_key(*(#[trigger] it.seq()[j]).0),
            forall|k: SessionId| #[trigger] r@.contains_key(k) ==> m.contains_key(k) && r@[k] == m[k].core.parent_session,
        ensures
            forall|k: SessionId| #[trigger] m.contains_key(k) ==> r@.contains_key(k),
            forall|k: SessionId| #[trigger] r@.contains_key(k) ==> m.contains_key(k) && r@[k] == m[k].core.parent_session,
    {
        let (id, session) = pair;
        proof {
            assert(it.seq()[it.index()] == pair);
        }
        r.insert(*id, session.core.parent_session);
    }
    proof {
        assert(r@ =~= parent_map(m));
    }
    r
}

/// Aggregated token statistics of session `session_id`: its own ledger's
/// statistics, and the sum of those of every session descending from it
/// (an unknown session has none of its own). Each descendant counts once.
pub fn aggregate_session_stats(sessions: &HashMap<SessionId, ChatSessionState>, session_id: &SessionId) -> (r:
    AggregatedTokenStats)
    requires
        !descends_from_itself(sessions@, *session_id),
        forall|k: SessionId| #[trigger] sessions@.contains_key(k) ==> fits_u64(ledger_model(sessions@[k].core.token_ledger@)),
        forall|order: Seq<SessionId>| #[trigger] some_descendants(order, sessions@, *session_id) ==> fits_u64(
            order_sum(order, sessions@),
        ),
    ensures
        stats_model(r.own) == if sessions@.contains_key(*session_id) {
            ledger_model(sessions@[*session_id].core.token_ledger@)
        } else {
            zero_model()
        },
        exists|order: Seq<SessionId>| #[trigger] all_descendants(order, sessions@, *session_id)
            && stats_model(r.children) == order_sum(order, sessions@),
{
    let ghost m = sessions@;
    let target = *session_id;
    let own = match sessions.get(&target) {
        Some(s) => TokenStats::from_ledger(s.core.token_ledger.as_slice()),
        None => TokenStats::zero(),
    };
    let links = parent_links(sessions);
    let tree = tree_below(target, &links);
    let mut children = TokenStats::zero();
    let ghost mut order: Seq<SessionId> = Seq::empty();
    proof {
        assert forall|x: SessionId| #[trigger] is_descendant(m, target, x) implies m.contains_key(x) by {
            crate::tree::lemma_in_tree_known(parent_map(m), target, x);
        }
    }
    for pair in it: sessions.iter()
        invariant
            m == sessions@,
            target == *session_id,
            forall|x: SessionId| tree@.contains(x) <==> in_tree_of(parent_map(m), target, x),
            forall|k: SessionId| #[trigger] m.contains_key(k) ==> fits_u64(ledger_model(m[k].core.token_ledger@)),
            forall|o: Seq<SessionId>| #[trigger] some_descendants(o, m, target) ==> fits_u64(order_sum(o, m)),
            forall|c: SessionId| #[trigger] m.contains_key(c) ==> it.seq().contains((&c, &m[c])),
            forall|j: int| 0 <= j < it.seq().len() ==> #[trigger] m.contains_key(*it.seq()[j].0)
                && m[*it.seq()[j].0] == *it.seq()[j].1,
            it.seq().no_duplicates(),
            some_descendants(order, m, target),
            stats_model(children) == order_sum(order, m),
            forall|i: int| 0 <= i < order.len() ==> exists|j: int| 0 <= j < it.index() && *it.seq()[j].0 == #[trigger] order[i],
            forall|j: int| 0 <= j < it.index() && is_descendant(m, target, *it.seq()[j].0) ==> order.contains(*(#[trigger] it.seq()[j]).0),
            forall|x: SessionId| #[trigger] is_descendant(m, target, x) ==> m.contains_key(x),
        ensures
            some_descendants(order, m, target),
            stats_model(children) == order_sum(order, m),
            forall|x: SessionId| #[trigger] is_descendant(m, target, x) ==> order.contains(x),
    {
        let (id, session) = pair;
        proof {
            assert(it.seq()[it.index()] == pair);
        }
        if *id != target && tree.contains(id) {
            let ghost next = order.push(*id);
            proof {
                assert forall|i: int| 0 <= i < order.len() implies order[i] != *id by {
                    let j = choose|j: int| 0 <= j < it.index() && *it.seq()[j].0 == order[i];
                    if order[i] == *id {
                        assert(it.seq()[j] == it.seq()[it.index() as int]);
                    }
                }
                assert(next.drop_last() == order);
                assert(some_descendants(next, m, target));
                assert(fits_u64(order_sum(next, m)));
                crate::token_stats::lemma_ledger_bounded(session.core.token_ledger@);
            }
            let s = TokenStats::from_ledger(session.core.token_ledger.as_slice());
            children.total_sent = children.total_sent + s.total_sent;
            children.total_received = children.total_received + s.total_received;
            children.request_count = children.request_count + s.request_count;
            children.effective_sent = children.effective_sent + s.effective_sent;
            children.measured_sent = children.measured_sent + s.measured_sent;
            children.cached_total = children.cached_total + s.cached_total;
            proof {
                order = next;
                assert forall|i: int| 0 <= i < order.len() implies exists|j: int|
                    0 <= j < it.index() + 1 && *it.seq()[j].0 == #[trigger] order[i] by {
                    if i == order.len() - 1 {
                        assert(*it.seq()[it.index() as int].0 == order[i]);
                    } else {
                        assert(order[i] == order.drop_last()[i]);
                    }
                }
                assert forall|j: int| 0 <= j < it.index() + 1 && is_descendant(m, target, *it.seq()[j].0)
                    implies order.contains(*(#[trigger] it.seq()[j]).0) by {
                    if j == it.index() {
                        assert(order[order.len() - 1] == *id);
                    } else {
                        assert(order.drop_last().contains(*it.seq()[j].0));
                        let w = choose|w: int| 0 <= w < order.drop_last().len() && order.drop_last()[w] == *it.seq()[j].0;
                        assert(order[w] == *it.seq()[j].0);
                    }
                }
            }
        }
    }
    proof {
        assert(all_descendants(order, m, target));
    }
    AggregatedTokenStats { own, children }
}

} // verus!
