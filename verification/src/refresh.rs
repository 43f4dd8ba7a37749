//! The notice posted after the model list is refreshed: a markdown table
//! with one row per provider, the providers in code-point order.
use vstd::prelude::*;
use vstd::string::*;
use crate::decisions::{decimal, format_decimal};
use crate::entry::{ChatEntry, ChatEntryId};
use crate::session::ChatSessionState;

verus! {

/// Code-point order on text, the order in which `str` values compare
/// (UTF-8 keeps the order of code points): a proper prefix comes first,
/// else the first differing character decides.
pub open spec fn text_less(a: Seq<char>, b: Seq<char>) -> bool
    decreases a.len(),
{
    if b.len() == 0 {
        false
    } else if a.len() == 0 {
        true
    } else if a[0] != b[0] {
        (a[0] as int) < (b[0] as int)
    } else {
        text_less(a.drop_first(), b.drop_first())
    }
}

/// No text comes before itself.
pub proof fn lemma_text_less_irreflexive(a: Seq<char>)
    ensures
        !text_less(a, a),
    decreases a.len(),
{
    if a.len() > 0 {
        lemma_text_less_irreflexive(a.drop_first());
    }
}

/// Two different texts are ordered one way or the other.
pub proof fn lemma_text_less_total(a: Seq<char>, b: Seq<char>)
    requires
        a != b,
    ensures
        text_less(a, b) || text_less(b, a),
    decreases a.len(),
{
    if a.len() == 0 && b.len() == 0 {
        assert(a =~= b);
    } else if a.len() > 0 && b.len() > 0 && a[0] == b[0] {
        if a.drop_first() == b.drop_first() {
            assert(a =~= b) by {
                assert(a.len() == a.drop_first().len() + 1);
                assert(b.len() == b.drop_first().len() + 1);
                assert forall|k: int| 0 <= k < a.len() implies a[k] == b[k] by {
                    if k > 0 {
                        assert(a[k] == a.drop_first()[k - 1]);
                        assert(b[k] == b.drop_first()[k - 1]);
                    }
                }
            }
        }
        lemma_text_less_total(a.drop_first(), b.drop_first());
    } else if a.len() > 0 && b.len() > 0 {
        assert((a[0] as int) != (b[0] as int));
    }
}

/// The order is transitive.
pub proof fn lemma_text_less_transitive(a: Seq<char>, b: Seq<char>, c: Seq<char>)
    requires
        text_less(a, b),
        text_less(b, c),
    ensures
        text_less(a, c),
    decreases a.len(),
{
    if a.len() > 0 && a[0] == b[0] && b[0] == c[0] {
        lemma_text_less_transitive(a.drop_first(), b.drop_first(), c.drop_first());
    }
}

/// Whether `a` comes before `b` in code-point order.
pub(crate) fn text_lt(a: &str, b: &str) -> (r: bool)
    ensures
        r == text_less(a@, b@),
{
    let na = a.unicode_len();
    let nb = b.unicode_len();
    let mut i: usize = 0;
    assert(a@.skip(0) =~= a@);
    assert(b@.skip(0) =~= b@);
    while i < na && i < nb && a.get_char(i) == b.get_char(i)
        invariant
            na == a@.len(),
            nb == b@.len(),
            i <= na,
            i <= nb,
            text_less(a@, b@) == text_less(a@.skip(i as int), b@.skip(i as int)),
        decreases na - i,
    {
        assert(a@.skip(i as int).drop_first() =~= a@.skip(i + 1));
        assert(b@.skip(i as int).drop_first() =~= b@.skip(i + 1));
        i = i + 1;
    }
    if i == nb {
        false
    } else if i == na {
        true
    } else {
        a.get_char(i) < b.get_char(i)
    }
}

/// The views of the strings in `s`.
pub open spec fn texts(s: Seq<String>) -> Seq<Seq<char>> {
    s.map_values(|x: String| x@)
}

/// `o` is strictly ascending in code-point order.
pub open spec fn ascending(o: Seq<Seq<char>>) -> bool {
    forall|i: int, j: int| 0 <= i < j < o.len() ==> text_less(#[trigger] o[i], #[trigger] o[j])
}

/// Inserts `x` into the ascending list `v` unless it is already there.
fn insert_in_order(v: &mut Vec<String>, x: &String)
    requires
        ascending(texts(old(v)@)),
    ensures
        ascending(texts(final(v)@)),
        forall|t: Seq<char>| texts(final(v)@).contains(t) <==> (texts(old(v)@).contains(t) || t == x@),
{
    let n = v.len();
    let mut i: usize = 0;
    while i < n && text_lt(v[i].as_str(), x.as_str())
        invariant
            n == v@.len(),
            i <= n,
            *v == *old(v),
            forall|k: int| 0 <= k < i ==> text_less(#[trigger] texts(v@)[k], x@),
        decreases n - i,
    {
        i = i + 1;
    }
    let ghost before = texts(v@);
    if i < n && !text_lt(x.as_str(), v[i].as_str()) {
        proof {
            if before[i as int] != x@ {
                lemma_text_less_total(before[i as int], x@);
            }
            assert(before[i as int] == x@);
        }
        return;
    }
    proof {
        if i < n {
            assert forall|k: int| i <= k < n implies text_less(x@, #[trigger] before[k]) by {
                if k > i {
                    lemma_text_less_transitive(x@, before[i as int], before[k]);
                }
            }
        }
    }
    v.insert(i, x.clone());
    proof {
        let after = texts(v@);
        assert(after =~= before.insert(i as int, x@));
        assert forall|t: Seq<char>| after.contains(t) <==> (before.contains(t) || t == x@) by {
            if after.contains(t) {
                let k = choose|k: int| 0 <= k < after.len() && after[k] == t;
                if k < i {
                    assert(before[k] == t);
                } else if k > i {
                    assert(before[k - 1] == t);
                }
            }
            if before.contains(t) {
                let k = choose|k: int| 0 <= k < before.len() && before[k] == t;
                if k < i {
                    assert(after[k] == t);
                } else {
                    assert(after[k + 1] == t);
                }
            }
            if t == x@ {
                assert(after[i as int] == t);
            }
        }
    }
}

/// The model count reported for provider `p`: the first entry for it.
pub open spec fn count_for(results: Seq<(String, usize)>, p: Seq<char>) -> Option<usize>
    decreases results.len(),
{
    if results.len() == 0 {
        None
    } else if results[0].0@ == p {
        Some(results[0].1)
    } else {
        count_for(results.drop_first(), p)
    }
}

/// The error reported for provider `p`: the first entry for it.
pub open spec fn error_for(errors: Seq<(String, String)>, p: Seq<char>) -> Option<Seq<char>>
    decreases errors.len(),
{
    if errors.len() == 0 {
        None
    } else if errors[0].0@ == p {
        Some(errors[0].1@)
    } else {
        error_for(errors.drop_first(), p)
    }
}

/// The providers named by a refresh: those with models and those with errors.
pub open spec fn provider_names(results: Seq<(String, usize)>, errors: Seq<(String, String)>) -> Set<Seq<char>> {
    Set::new(
        |p: Seq<char>|
            (exists|i: int| 0 <= i < results.len() && (#[trigger] results[i]).0@ == p) || (exists|i: int|
                0 <= i < errors.len() && (#[trigger] errors[i]).0@ == p),
    )
}

/// The table row of provider `p`: its model count and a check mark, else
/// zero and its error.
pub open spec fn row_text(p: Seq<char>, results: Seq<(String, usize)>, errors: Seq<(String, String)>) -> Seq<char> {
    match count_for(results, p) {
        Some(n) => "| "@ + p + " | "@ + decimal(n as nat) + " | \u{2705} |"@,
        None => match error_for(errors, p) {
            Some(e) => "| "@ + p + " | 0 | \u{274c} "@ + e + " |"@,
            None => Seq::empty(),
        },
    }
}

/// The rows of the providers `o`, each ended by a line feed.
pub open spec fn rows_text(o: Seq<Seq<char>>, results: Seq<(String, usize)>, errors: Seq<(String, String)>) -> Seq<char>
    decreases o.len(),
{
    if o.len() == 0 {
        Seq::empty()
    } else {
        rows_text(o.drop_last(), results, errors) + row_text(o.last(), results, errors) + "\n"@
    }
}

/// The table's two header lines.
pub open spec fn table_header() -> Seq<char> {
    "| Provider | Models | Status |\n|----------|--------|--------|\n"@
}

/// The model count reported for `p`, if any.
fn find_count(results: &Vec<(String, usize)>, p: &String) -> (r: Option<usize>)
    ensures
        r == count_for(results@, p@),
{
    let n = results.len();
    let mut i: usize = 0;
    assert(results@.skip(0) =~= results@);
    while i < n
        invariant
            n == results@.len(),
            i <= n,
            count_for(results@, p@) == count_for(results@.skip(i as int), p@),
        decreases n - i,
    {
        assert(results@.skip(i as int).drop_first() =~= results@.skip(i + 1));
        if results[i].0 == *p {
            return Some(results[i].1);
        }
        i = i + 1;
    }
    None
}

/// The error reported for `p`, if any.
fn find_error(errors: &Vec<(String, String)>, p: &String) -> (r: Option<String>)
    ensures
        match r {
            Some(e) => error_for(errors@, p@) == Some(e@),
            None => error_for(errors@, p@) is None,
        },
{
    let n = errors.len();
    let mut i: usize = 0;
    assert(errors@.skip(0) =~= errors@);
    while i < n
        invariant
            n == errors@.len(),
            i <= n,
            error_for(errors@, p@) == error_for(errors@.skip(i as int), p@),
        decreases n - i,
    {
        assert(errors@.skip(i as int).drop_first() =~= errors@.skip(i + 1));
        if errors[i].0 == *p {
            return Some(errors[i].1.clone());
        }
        i = i + 1;
    }
    None
}

/// Builds the refresh table: a header, then one row per provider named in
/// `results` (provider, number of models) or `errors` (provider, message),
/// in code-point order of the names, each provider once; a provider with
/// models shows their count and a check mark, else zero and its error.
pub fn build_models_refresh_table(results: &Vec<(String, usize)>, errors: &Vec<(String, String)>) -> (table: String)
    ensures
        exists|o: Seq<Seq<char>>| {
            &&& ascending(o)
            &&& forall|p: Seq<char>| o.contains(p) <==> provider_names(results@, errors@).contains(p)
            &&& table@ == table_header() + #[trigger] rows_text(o, results@, errors@)
        },
{
    let mut providers: Vec<String> = Vec::new();
    let nr = results.len();
    let mut i: usize = 0;
    while i < nr
        invariant
            nr == results@.len(),
            i <= nr,
            ascending(texts(providers@)),
            forall|p: Seq<char>|
                texts(providers@).contains(p) <==> exists|k: int| 0 <= k < i && (#[trigger] results@[k]).0@ == p,
        decreases nr - i,
    {
        insert_in_order(&mut providers, &results[i].0);
        proof {
            assert forall|p: Seq<char>|
                texts(providers@).contains(p) implies exists|k: int| 0 <= k < i + 1 && (#[trigger] results@[k]).0@ == p by {
                if p == results@[i as int].0@ {
                } else {
                }
            }
        }
        i = i + 1;
    }
    let ne = errors.len();
    let mut j: usize = 0;
    while j < ne
        invariant
            nr == results@.len(),
            ne == errors@.len(),
            j <= ne,
            ascending(texts(providers@)),
            forall|p: Seq<char>|
                texts(providers@).contains(p) <==> ((exists|k: int| 0 <= k < nr && (#[trigger] results@[k]).0@ == p)
                    || exists|k: int| 0 <= k < j && (#[trigger] errors@[k]).0@ == p),
        decreases ne - j,
    {
        insert_in_order(&mut providers, &errors[j].0);
        j = j + 1;
    }
    let ghost o = texts(providers@);
    proof {
        reveal_strlit("| Provider | Models | Status |\n|----------|--------|--------|\n");
    }
    let mut table = String::from_str("| Provider | Models | Status |\n|----------|--------|--------|\n");
    let np = providers.len();
    let mut k: usize = 0;
    while k < np
        invariant
            np == providers@.len(),
            o == texts(providers@),
            k <= np,
            table@ == table_header() + rows_text(o.subrange(0, k as int), results@, errors@),
        decreases np - k,
    {
        let p = &providers[k];
        proof {
            assert(o.subrange(0, k + 1).drop_last() =~= o.subrange(0, k as int));
            assert(o.subrange(0, k + 1).last() == p@);
            reveal_strlit("| ");
            reveal_strlit(" | ");
            reveal_strlit(" | \u{2705} |");
            reveal_strlit(" | 0 | \u{274c} ");
            reveal_strlit(" |");
            reveal_strlit("\n");
        }
        match find_count(results, p) {
            Some(n) => {
                table.append("| ");
                table.append(p.as_str());
                table.append(" | ");
                let count = format_decimal(n as u64);
                table.append(count.as_str());
                table.append(" | \u{2705} |");
            },
            None => match find_error(errors, p) {
                Some(e) => {
                    table.append("| ");
                    table.append(p.as_str());
                    table.append(" | 0 | \u{274c} ");
                    table.append(e.as_str());
                    table.append(" |");
                },
                None => {},
            },
        }
        table.append("\n");
        k = k + 1;
    }
    proof {
        assert(o.subrange(0, np as int) =~= o);
        assert forall|p: Seq<char>| o.contains(p) <==> provider_names(results@, errors@).contains(p) by {
            if o.contains(p) {
                assert(texts(providers@).contains(p));
            }
            if provider_names(results@, errors@).contains(p) {
                assert(texts(providers@).contains(p));
            }
        }
    }
    table
}

impl ChatSessionState {
    /// Posts the refresh notice as a transient entry (shown, never sent to
    /// the model). Returns the text posted.
    pub fn note_models_refreshed(&mut self, results: &Vec<(String, usize)>, errors: &Vec<(String, String)>) -> (text: String)
        requires
            old(self).core.history@.len() < usize::MAX,
        ensures
            results@.len() == 0 && errors@.len() == 0 ==> text@ == "Models refreshed: no providers found"@,
            results@.len() > 0 || errors@.len() > 0 ==> exists|o: Seq<Seq<char>>| {
                &&& ascending(o)
                &&& forall|p: Seq<char>| o.contains(p) <==> provider_names(results@, errors@).contains(p)
                &&& text@ == table_header() + #[trigger] rows_text(o, results@, errors@)
            },
            final(self).core.history@.len() == old(self).core.history@.len() + 1,
            crate::session_stream::minted_push(
                *old(self),
                *final(self),
                final(self).core.history@.last(),
                old(self).core.ephemeral.machine,
            ),
            final(self).core.history@.last().kind matches crate::entry::ChatEntryKind::Transient(t) && t@ == text@,
    {
        let text = if results.len() == 0 && errors.len() == 0 {
            String::from_str("Models refreshed: no providers found")
        } else {
            build_models_refresh_table(results, errors)
        };
        let entry = ChatEntry::transient(ChatEntryId(0), text.clone());
        self.push_new_entry(entry);
        text
    }
}

} // verus!
