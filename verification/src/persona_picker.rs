//! The rows of the persona picker: every loaded persona once, ordered by
//! name without regard to case, the active one marked.
use vstd::prelude::*;
use vstd::string::*;
use crate::phase::{lowercase, str_to_lowercase};
use crate::refresh::{lemma_text_less_total, lemma_text_less_transitive, text_less};

verus! {

/// The lower-case forms of `names`, in order.
pub open spec fn lowered(names: Seq<String>) -> Seq<Seq<char>> {
    names.map_values(|n: String| lowercase(n@))
}

/// `p` lists each of `0..keys.len()` once, ordered by key in code-point
/// order, equal keys in their given order.
pub open spec fn ordered_by_text(p: Seq<usize>, keys: Seq<Seq<char>>) -> bool {
    &&& p.len() == keys.len()
    &&& forall|k: int| 0 <= k < p.len() ==> #[trigger] p[k] < keys.len()
    &&& forall|k: int, l: int|
        0 <= k < l < p.len() ==> {
            ||| text_less(keys[#[trigger] p[k] as int], keys[#[trigger] p[l] as int])
            ||| keys[p[k] as int] == keys[p[l] as int] && p[k] < p[l]
        }
}

/// The picker rows for the loaded persona `names`: each row gives the
/// position of a persona in `names` and whether it is the active one (the
/// one called `active`); rows are ordered by lower-cased name, personas
/// whose lower-cased names agree in their given order.
pub fn persona_picker_rows(names: &Vec<String>, active: Option<&str>) -> (rows: Vec<(usize, bool)>)
    ensures
        exists|p: Seq<usize>| {
            &&& #[trigger] ordered_by_text(p, lowered(names@))
            &&& rows@.len() == p.len()
            &&& forall|k: int|
                0 <= k < p.len() ==> #[trigger] rows@[k] == (
                    p[k],
                    match active {
                        Some(a) => names@[p[k] as int]@ == a@,
                        None => false,
                    },
                )
        },
{
    let n = names.len();
    let mut keys: Vec<String> = Vec::new();
    let mut i: usize = 0;
    while i < n
        invariant
            n == names@.len(),
            i <= n,
            keys@.len() == i,
            forall|k: int| 0 <= k < i ==> (#[trigger] keys@[k])@ == lowercase(names@[k]@),
        decreases n - i,
    {
        keys.push(str_to_lowercase(names[i].as_str()));
        i = i + 1;
    }
    let ghost lk = lowered(names@);
    assert(forall|k: int| 0 <= k < n ==> (#[trigger] keys@[k])@ == lk[k]);
    let mut order: Vec<usize> = Vec::new();
    let mut i: usize = 0;
    while i < n
        invariant
            n == names@.len(),
            n == keys@.len(),
            lk == lowered(names@),
            forall|k: int| 0 <= k < n ==> (#[trigger] keys@[k])@ == lk[k],
            i <= n,
            order@.len() == i,
            forall|k: int| 0 <= k < order@.len() ==> #[trigger] order@[k] < i,
            forall|k: int, l: int| 0 <= k < l < order@.len() ==> #[trigger] order@[k] != #[trigger] order@[l],
            forall|k: int, l: int|
                0 <= k < l < order@.len() ==> {
                    ||| text_less(lk[#[trigger] order@[k] as int], lk[#[trigger] order@[l] as int])
                    ||| lk[order@[k] as int] == lk[order@[l] as int] && order@[k] < order@[l]
                },
        decreases n - i,
    {
        let m = order.len();
        let mut j: usize = 0;
        while j < m && !crate::refresh::text_lt(keys[i].as_str(), keys[order[j]].as_str())
            invariant
                n == keys@.len(),
                lk == lowered(names@),
                forall|k: int| 0 <= k < n ==> (#[trigger] keys@[k])@ == lk[k],
                i < n,
                m == order@.len(),
                j <= m,
                forall|k: int| 0 <= k < order@.len() ==> #[trigger] order@[k] < i,
                forall|k: int| 0 <= k < j ==> !text_less(lk[i as int], lk[#[trigger] order@[k] as int]),
            decreases m - j,
        {
            j = j + 1;
        }
        let ghost before = order@;
        proof {
            if j < m {
                assert forall|k: int| j <= k < m implies text_less(lk[i as int], lk[#[trigger] before[k] as int]) by {
                    if k > j {
                        if lk[before[j as int] as int] != lk[before[k] as int] {
                            lemma_text_less_transitive(lk[i as int], lk[before[j as int] as int], lk[before[k] as int]);
                        }
                    }
                }
            }
            assert forall|k: int| 0 <= k < j implies text_less(lk[#[trigger] before[k] as int], lk[i as int])
                || lk[before[k] as int] == lk[i as int] by {
                if lk[before[k] as int] != lk[i as int] {
                    lemma_text_less_total(lk[before[k] as int], lk[i as int]);
                }
            }
        }
        order.insert(j, i);
        proof {
            let after = order@;
            assert(after =~= before.insert(j as int, i));
            assert forall|k: int, l: int| 0 <= k < l < after.len() implies {
                ||| text_less(lk[#[trigger] after[k] as int], lk[#[trigger] after[l] as int])
                ||| lk[after[k] as int] == lk[after[l] as int] && after[k] < after[l]
            } by {
                if l < j {
                    assert(after[k] == before[k] && after[l] == before[l]);
                } else if l == j {
                    assert(after[k] == before[k]);
                } else if k == j {
                    assert(after[l] == before[l - 1]);
                } else if k < j {
                    assert(after[k] == before[k] && after[l] == before[l - 1]);
                } else {
                    assert(after[k] == before[k - 1] && after[l] == before[l - 1]);
                }
            }
            assert forall|k: int, l: int| 0 <= k < l < after.len() implies #[trigger] after[k] != #[trigger] after[l] by {
                if l < j {
                    assert(after[k] == before[k] && after[l] == before[l]);
                } else if l == j {
                    assert(after[k] == before[k]);
                } else if k == j {
                    assert(after[l] == before[l - 1]);
                } else if k < j {
                    assert(after[k] == before[k] && after[l] == before[l - 1]);
                } else {
                    assert(after[k] == before[k - 1] && after[l] == before[l - 1]);
                }
            }
            assert forall|k: int| 0 <= k < after.len() implies #[trigger] after[k] < i + 1 by {
                if k < j {
                    assert(after[k] == before[k]);
                } else if k > j {
                    assert(after[k] == before[k - 1]);
                }
            }
        }
        i = i + 1;
    }
    let mut rows: Vec<(usize, bool)> = Vec::new();
    let mut k: usize = 0;
    while k < n
        invariant
            n == names@.len(),
            n == order@.len(),
            forall|q: int| 0 <= q < order@.len() ==> #[trigger] order@[q] < n,
            k <= n,
            rows@.len() == k,
            forall|q: int|
                0 <= q < k ==> #[trigger] rows@[q] == (
                    order@[q],
                    match active {
                        Some(a) => names@[order@[q] as int]@ == a@,
                        None => false,
                    },
                ),
        decreases n - k,
    {
        let idx = order[k];
        let is_active = match active {
            Some(a) => {
                let a_owned = String::from_str(a);
                names[idx] == a_owned
            },
            None => false,
        };
        rows.push((idx, is_active));
        k = k + 1;
    }
    assert(ordered_by_text(order@, lk));
    rows
}

} // verus!
