//! The session tree around a session: walk up to its root, then collect
//! every session that descends from that root.
use vstd::prelude::*;
use std::collections::{HashMap, HashSet};
use crate::ids::SessionId;

verus! {

broadcast use vstd::std_specs::hash::group_hash_axioms;

/// The recorded parent of `x`, if `x` is known and has one.
pub open spec fn parent_link(m: Map<SessionId, Option<SessionId>>, x: SessionId) -> Option<SessionId> {
    if m.contains_key(x) {
        m[x]
    } else {
        None
    }
}

/// One step up the tree: the parent of `x`, provided that parent is known.
pub open spec fn step_up(m: Map<SessionId, Option<SessionId>>, x: SessionId) -> Option<SessionId> {
    match parent_link(m, x) {
        Some(p) => if m.contains_key(p) {
            Some(p)
        } else {
            None
        },
        None => None,
    }
}

/// The session reached after `k` steps up from `start` (staying put once no
/// step is possible).
pub open spec fn walk(m: Map<SessionId, Option<SessionId>>, start: SessionId, k: nat) -> SessionId
    decreases k,
{
    if k == 0 {
        start
    } else {
        let prev = walk(m, start, (k - 1) as nat);
        match step_up(m, prev) {
            Some(p) => p,
            None => prev,
        }
    }
}

/// The walk stops at step `j`: its session was already visited, or it has no
/// known parent.
pub open spec fn walk_stops(m: Map<SessionId, Option<SessionId>>, start: SessionId, j: nat) -> bool {
    ||| exists|i: nat| i < j && #[trigger] walk(m, start, i) == walk(m, start, j)
    ||| step_up(m, walk(m, start, j)) is None
}

/// `r` is where the upward walk from `start` first stops: the root of the
/// tree, or the first repeated session when the parent links form a cycle.
pub open spec fn is_walk_root(m: Map<SessionId, Option<SessionId>>, start: SessionId, r: SessionId) -> bool {
    exists|j: nat|
        walk_stops(m, start, j) && (forall|i: nat| i < j ==> !#[trigger] walk_stops(m, start, i))
            && r == walk(m, start, j)
}

/// Following parent links from `x` reaches `r` within `n` steps.
pub open spec fn reaches_up(m: Map<SessionId, Option<SessionId>>, x: SessionId, r: SessionId, n: nat) -> bool
    decreases n,
{
    x == r || (n > 0 && match parent_link(m, x) {
        Some(p) => reaches_up(m, p, r, (n - 1) as nat),
        None => false,
    })
}

/// `x` belongs to the tree rooted at `r`: `x` is `r` or descends from it.
pub open spec fn in_tree_of(m: Map<SessionId, Option<SessionId>>, r: SessionId, x: SessionId) -> bool {
    exists|n: nat| reaches_up(m, x, r, n)
}

proof fn lemma_walk_known(m: Map<SessionId, Option<SessionId>>, start: SessionId, k: nat)
    ensures
        walk(m, start, k) == start || m.contains_key(walk(m, start, k)),
    decreases k,
{
    if k > 0 {
        lemma_walk_known(m, start, (k - 1) as nat);
    }
}

/// A tree member other than the root is a known session.
pub proof fn lemma_in_tree_known(m: Map<SessionId, Option<SessionId>>, r: SessionId, x: SessionId)
    requires
        in_tree_of(m, r, x),
    ensures
        x == r || m.contains_key(x),
{
    let n = choose|n: nat| reaches_up(m, x, r, n);
    if x != r {
        assert(parent_link(m, x) is Some);
    }
}

/// A child of a tree member is a tree member.
proof fn lemma_child_in_tree(m: Map<SessionId, Option<SessionId>>, r: SessionId, p: SessionId, c: SessionId)
    requires
        in_tree_of(m, r, p),
        m.contains_key(c),
        m[c] == Some(p),
    ensures
        in_tree_of(m, r, c),
{
    let n = choose|n: nat| reaches_up(m, p, r, n);
    assert(reaches_up(m, c, r, n + 1));
}

/// Every tree member is in any set that holds the root and is closed under
/// taking children.
proof fn lemma_tree_in_closed(m: Map<SessionId, Option<SessionId>>, r: SessionId, s: Set<SessionId>, x: SessionId, n: nat)
    requires
        s.contains(r),
        forall|t: SessionId, c: SessionId|
            #![trigger s.contains(t), m[c]]
            s.contains(t) && m.contains_key(c) && m[c] == Some(t) ==> s.contains(c),
        reaches_up(m, x, r, n),
    ensures
        s.contains(x),
    decreases n,
{
    if x != r {
        let p = parent_link(m, x)->Some_0;
        lemma_tree_in_closed(m, r, s, p, (n - 1) as nat);
    }
}

/// Collects the ids of every session in the tree that contains `start`.
///
/// Walks parent links up from `start` until a session without a known
/// parent, or a repeated session, and then gathers that root together with
/// every session descending from it.
pub fn collect_tree_ids(
    start: &SessionId,
    summary_map: &HashMap<SessionId, Option<SessionId>>,
) -> (tree: HashSet<SessionId>)
    ensures
        exists|r: SessionId|
            is_walk_root(summary_map@, *start, r) && forall|x: SessionId|
                tree@.contains(x) <==> in_tree_of(summary_map@, r, x),
{
    let ghost m = summary_map@;
    let ghost dom = m.dom().insert(*start);
    let mut visited: HashSet<SessionId> = HashSet::new();
    let mut current: SessionId = *start;
    let ghost mut k: nat = 0;
    loop
        invariant_except_break
            current == walk(m, *start, k),
            visited@ == Set::new(|x: SessionId| exists|i: nat| i < k && #[trigger] walk(m, *start, i) == x),
            forall|i: nat| i < k ==> !#[trigger] walk_stops(m, *start, i),
            visited@.finite(),
            visited@.len() == k,
            visited@.subset_of(dom),
            dom.finite(),
            dom == m.dom().insert(*start),
            m == summary_map@,
        ensures
            current == walk(m, *start, k),
            walk_stops(m, *start, k),
            forall|i: nat| i < k ==> !#[trigger] walk_stops(m, *start, i),
        decreases dom.len() - visited@.len(),
    {
        let ghost before = visited@;
        if !visited.insert(current) {
            proof {
                let i = choose|i: nat| i < k && #[trigger] walk(m, *start, i) == current;
                assert(walk(m, *start, i) == walk(m, *start, k));
            }
            break;
        }
        proof {
            lemma_walk_known(m, *start, k);
            assert(dom.contains(walk(m, *start, k)));
            assert(visited@ == before.insert(current));
            assert(visited@.subset_of(dom));
            vstd::set_lib::lemma_len_subset(visited@, dom);
            assert(!(exists|i: nat| i < k && #[trigger] walk(m, *start, i) == walk(m, *start, k)));
        }
        let next = match summary_map.get(&current) {
            Some(Some(p)) => if summary_map.contains_key(p) {
                Some(*p)
            } else {
                None
            },
            _ => None,
        };
        match next {
            Some(p) => {
                proof {
                    assert(step_up(m, walk(m, *start, k)) == Some(p));
                    assert(!walk_stops(m, *start, k));
                    assert(walk(m, *start, k + 1) == p);
                    assert(visited@ =~= Set::new(
                        |x: SessionId| exists|i: nat| i < k + 1 && #[trigger] walk(m, *start, i) == x,
                    )) by {
                        assert forall|x: SessionId| visited@.contains(x) implies (exists|i: nat|
                            i < k + 1 && #[trigger] walk(m, *start, i) == x) by {
                            if x == walk(m, *start, k) {
                            } else {
                                assert(before.contains(x));
                            }
                        }
                        assert forall|x: SessionId| (exists|i: nat|
                            i < k + 1 && #[trigger] walk(m, *start, i) == x) implies visited@.contains(x) by {
                            let i = choose|i: nat| i < k + 1 && #[trigger] walk(m, *start, i) == x;
                            if i < k {
                                assert(before.contains(x));
                            }
                        }
                    }
                    k = k + 1;
                }
                current = p;
            },
            None => {
                proof {
                    assert(step_up(m, walk(m, *start, k)) is None);
                }
                break;
            },
        }
    }
    let root = current;
    proof {
        assert(is_walk_root(m, *start, root));
    }
    tree_below(root, summary_map)
}

/// Collects `root` and every session that descends from it.
pub fn tree_below(root: SessionId, summary_map: &HashMap<SessionId, Option<SessionId>>) -> (tree: HashSet<SessionId>)
    ensures
        forall|x: SessionId| tree@.contains(x) <==> in_tree_of(summary_map@, root, x),
{
    let ghost m = summary_map@;
    let mut tree: HashSet<SessionId> = HashSet::new();
    let mut queue: Vec<SessionId> = Vec::new();
    queue.push(root);
    let ghost rdom = m.dom().insert(root);
    proof {
        assert(reaches_up(m, root, root, 0));
        assert(queue@[0] == root);
    }
    while queue.len() > 0
        invariant
            m == summary_map@,
            rdom == m.dom().insert(root),
            rdom.finite(),
            tree@.finite(),
            tree@.subset_of(rdom),
            forall|i: int| 0 <= i < queue@.len() ==> rdom.contains(#[trigger] queue@[i]),
            forall|x: SessionId| #[trigger] tree@.contains(x) ==> in_tree_of(m, root, x),
            forall|i: int| 0 <= i < queue@.len() ==> in_tree_of(m, root, #[trigger] queue@[i]),
            tree@.contains(root) || queue@.contains(root),
            forall|t: SessionId, c: SessionId|
                #![trigger tree@.contains(t), m[c]]
                tree@.contains(t) && m.contains_key(c) && m[c] == Some(t)
                    ==> tree@.contains(c) || queue@.contains(c),
        decreases rdom.len() - tree@.len(), queue@.len(),
    {
        let ghost q0 = queue@;
        let id = queue.pop().unwrap();
        proof {
            assert(q0 == queue@.push(id));
            assert(q0[q0.len() - 1] == id);
            vstd::set_lib::lemma_len_subset(tree@, rdom);
        }
        if tree.contains(&id) {
            proof {
                assert forall|t: SessionId, c: SessionId|
                    #![trigger tree@.contains(t), m[c]]
                tree@.contains(t) && m.contains_key(c) && m[c] == Some(t)
                        implies tree@.contains(c) || queue@.contains(c) by {
                    if !tree@.contains(c) {
                        assert(q0.contains(c));
                        let j = choose|j: int| 0 <= j < q0.len() && q0[j] == c;
                        if j < q0.len() - 1 {
                            assert(queue@[j] == c);
                        }
                    }
                }
                if !tree@.contains(root) {
                    let j = choose|j: int| 0 <= j < q0.len() && q0[j] == root;
                    if j < q0.len() - 1 {
                        assert(queue@[j] == root);
                    }
                }
            }
            continue;
        }
        let ghost t0 = tree@;
        tree.insert(id);
        proof {
            assert(q0.contains(id));
            vstd::set_lib::lemma_len_subset(tree@, rdom);
        }
        let ghost q1 = queue@;
        for pair in it: summary_map.iter()
            invariant
                m == summary_map@,
                rdom == m.dom().insert(root),
                tree@ == t0.insert(id),
                in_tree_of(m, root, id),
                queue@.len() >= q1.len(),
                forall|i: int| 0 <= i < q1.len() ==> queue@[i] == q1[i],
                forall|i: int| 0 <= i < queue@.len() ==> rdom.contains(#[trigger] queue@[i]),
                forall|i: int| 0 <= i < queue@.len() ==> in_tree_of(m, root, #[trigger] queue@[i]),
                forall|c: SessionId| #[trigger] m.contains_key(c) ==> it.seq().contains((&c, &m[c])),
                forall|j: int|
                    0 <= j < it.index() ==> (*(#[trigger] it.seq()[j]).1 == Some(id)
                        && !t0.insert(id).contains(*it.seq()[j].0)) ==> queue@.contains(
                        *it.seq()[j].0,
                    ),
            ensures
                forall|c: SessionId|
                    m.contains_key(c) && #[trigger] m[c] == Some(id) && !t0.insert(id).contains(c)
                        ==> queue@.contains(c),
        {
            let (child_id, parent_id) = pair;
            if *parent_id == Some(id) && !tree.contains(child_id) {
                let ghost qb = queue@;
                proof {
                    assert(it.seq()[it.index()] == pair);
                    assert(m.contains_key(*child_id) && m[*child_id] == *parent_id);
                }
                queue.push(*child_id);
                proof {
                    lemma_child_in_tree(m, root, id, *child_id);
                    assert(queue@ == qb.push(*child_id));
                    assert(queue@[queue@.len() - 1] == *child_id);
                    assert forall|x: SessionId| qb.contains(x) implies queue@.contains(x) by {
                        let w = choose|w: int| 0 <= w < qb.len() && qb[w] == x;
                        assert(queue@[w] == x);
                    }
                }
            }
        }
        proof {
            assert forall|t: SessionId, c: SessionId|
                #![trigger tree@.contains(t), m[c]]
                tree@.contains(t) && m.contains_key(c) && m[c] == Some(t)
                    implies tree@.contains(c) || queue@.contains(c) by {
                if !tree@.contains(c) {
                    if t == id {
                    } else {
                        assert(q0.contains(c));
                        let j = choose|j: int| 0 <= j < q0.len() && q0[j] == c;
                        assert(queue@[j] == c);
                    }
                }
            }
        }
    }
    proof {
        assert forall|x: SessionId| in_tree_of(m, root, x) implies tree@.contains(x) by {
            let n = choose|n: nat| reaches_up(m, x, root, n);
            lemma_tree_in_closed(m, root, tree@, x, n);
        }
    }
    tree
}

/// The members of `tree` that need a snapshot: those neither held live nor
/// already snapshotted, in the order given.
pub fn members_needing_snapshot(
    tree: &Vec<SessionId>,
    live: &HashSet<SessionId>,
    snapshotted: &HashSet<SessionId>,
) -> (r: Vec<SessionId>)
    ensures
        r@ == tree@.filter(|x: SessionId| !live@.contains(x) && !snapshotted@.contains(x)),
{
    let ghost keep = |x: SessionId| !live@.contains(x) && !snapshotted@.contains(x);
    let mut r: Vec<SessionId> = Vec::new();
    let n = tree.len();
    let mut i: usize = 0;
    while i < n
        invariant
            n == tree@.len(),
            i <= n,
            keep == (|x: SessionId| !live@.contains(x) && !snapshotted@.contains(x)),
            r@ == tree@.subrange(0, i as int).filter(keep),
        decreases n - i,
    {
        let x = tree[i];
        proof {
            assert(tree@.subrange(0, i + 1) == tree@.subrange(0, i as int).push(x));
            tree@.subrange(0, i as int).lemma_filter_push(x, keep);
        }
        if !live.contains(&x) && !snapshotted.contains(&x) {
            r.push(x);
        }
        i = i + 1;
    }
    assert(tree@.subrange(0, n as int) == tree@);
    r
}

} // verus!
