//! Small association lists keyed by strings, with first-match lookup.
use vstd::prelude::*;
use vstd::string::*;

verus! {

/// The value bound to `k`: the one of the first pair whose key is `k`.
pub open spec fn lookup<V>(s: Seq<(String, V)>, k: Seq<char>) -> Option<V>
    decreases s.len(),
{
    if s.len() == 0 {
        None
    } else if s[0].0@ == k {
        Some(s[0].1)
    } else {
        lookup(s.drop_first(), k)
    }
}

/// With no key `k` before position `i`, the lookup of `k` is the lookup in
/// the suffix from `i`.
pub proof fn lemma_lookup_skip<V>(s: Seq<(String, V)>, k: Seq<char>, i: int)
    requires
        0 <= i <= s.len(),
        forall|j: int| 0 <= j < i ==> (#[trigger] s[j]).0@ != k,
    ensures
        lookup(s, k) == lookup(s.subrange(i, s.len() as int), k),
    decreases i,
{
    if i > 0 {
        assert(s[0].0@ != k);
        lemma_lookup_skip(s.drop_first(), k, i - 1);
        assert(s.drop_first().subrange(i - 1, s.drop_first().len() as int) =~= s.subrange(
            i,
            s.len() as int,
        ));
    } else {
        assert(s.subrange(0, s.len() as int) =~= s);
    }
}

/// The lookup of `k` finds the first pair with key `k`, if there is one.
pub proof fn lemma_lookup_at<V>(s: Seq<(String, V)>, k: Seq<char>, i: int)
    requires
        0 <= i <= s.len(),
        forall|j: int| 0 <= j < i ==> (#[trigger] s[j]).0@ != k,
    ensures
        i < s.len() && s[i].0@ == k ==> lookup(s, k) == Some(s[i].1),
        i == s.len() ==> lookup(s, k) is None,
{
    lemma_lookup_skip(s, k, i);
    let t = s.subrange(i, s.len() as int);
    if i < s.len() {
        assert(t[0] == s[i]);
    }
}

/// Replacing the value of the first pair with key `s[i].0`, or any pair
/// whose key differs from `k`, changes the lookup of `k` accordingly.
pub proof fn lemma_lookup_update<V>(s: Seq<(String, V)>, i: int, v: V, k: Seq<char>)
    requires
        0 <= i < s.len(),
        forall|j: int| 0 <= j < i ==> (#[trigger] s[j]).0@ != s[i].0@,
    ensures
        lookup(s.update(i, (s[i].0, v)), k) == if k == s[i].0@ {
            Some(v)
        } else {
            lookup(s, k)
        },
    decreases i,
{
    let t = s.update(i, (s[i].0, v));
    if i == 0 {
        assert(t.drop_first() =~= s.drop_first());
    } else {
        assert(t.drop_first() =~= s.drop_first().update(i - 1, (s[i].0, v)));
        assert(s.drop_first()[i - 1] == s[i]);
        lemma_lookup_update(s.drop_first(), i - 1, v, k);
    }
}

/// Appending a pair changes only the lookup of a key that was absent.
pub proof fn lemma_lookup_push<V>(s: Seq<(String, V)>, key: String, v: V, k: Seq<char>)
    ensures
        lookup(s.push((key, v)), k) == match lookup(s, k) {
            Some(x) => Some(x),
            None => if k == key@ {
                Some(v)
            } else {
                None
            },
        },
    decreases s.len(),
{
    if s.len() > 0 {
        assert(s.push((key, v)).drop_first() =~= s.drop_first().push((key, v)));
        assert(s.push((key, v))[0] == s[0]);
        lemma_lookup_push(s.drop_first(), key, v, k);
    } else {
        assert(s.push((key, v)).drop_first() =~= Seq::<(String, V)>::empty());
        assert(s.push((key, v))[0] == (key, v));
        assert(lookup(Seq::<(String, V)>::empty(), k) is None);
    }
}

/// Position of the first pair whose key is `k`.
pub fn find_key<V>(s: &Vec<(String, V)>, k: &str) -> (r: Option<usize>)
    ensures
        match r {
            Some(i) => i < s@.len() && s@[i as int].0@ == k@ && forall|j: int|
                0 <= j < i ==> (#[trigger] s@[j]).0@ != k@,
            None => forall|j: int| 0 <= j < s@.len() ==> (#[trigger] s@[j]).0@ != k@,
        },
        match r {
            Some(i) => lookup(s@, k@) == Some(s@[i as int].1),
            None => lookup(s@, k@) is None,
        },
{
    let key = String::from_str(k);
    let n = s.len();
    let mut i: usize = 0;
    while i < n
        invariant
            n == s@.len(),
            key@ == k@,
            0 <= i <= n,
            forall|j: int| 0 <= j < i ==> (#[trigger] s@[j]).0@ != k@,
        decreases n - i,
    {
        if s[i].0 == key {
            proof {
                lemma_lookup_at(s@, k@, i as int);
            }
            return Some(i);
        }
        i = i + 1;
    }
    proof {
        lemma_lookup_at(s@, k@, n as int);
    }
    None
}

} // verus!
