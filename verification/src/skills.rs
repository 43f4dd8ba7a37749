//! Skills loaded into a session: bodies of the `skill` tool pinned in history.
use vstd::prelude::*;
use vstd::string::*;
use crate::entry::{ChatEntry, ChatEntryKind};
use crate::session::ChatSessionState;
use crate::strset::StringSet;

verus! {

/// How a skill body starts: `<skill name="`.
pub open spec fn skill_prefix() -> Seq<char> {
    "<skill name=\""@
}

/// `q` is the position of the first `"` in `s`.
pub open spec fn is_first_quote(s: Seq<char>, q: int) -> bool {
    &&& 0 <= q < s.len()
    &&& s[q] == '"'
    &&& forall|k: int| 0 <= k < q ==> #[trigger] s[k] != '"'
}

/// The skill name in a skill body `<skill name="X" ...>`: the text between
/// the opening quote and the next one.
pub open spec fn parsed_skill_name(content: Seq<char>) -> Option<Seq<char>> {
    let p = skill_prefix();
    if content.len() >= p.len() && content.subrange(0, p.len() as int) == p {
        let rest = content.subrange(p.len() as int, content.len() as int);
        if exists|q: int| is_first_quote(rest, q) {
            Some(rest.subrange(0, choose|q: int| is_first_quote(rest, q)))
        } else {
            None
        }
    } else {
        None
    }
}

/// Whether `e` holds a loaded skill body named `n`: a pinned result of the
/// `skill` tool whose content names it.
pub open spec fn holds_skill(e: ChatEntry, n: Seq<char>) -> bool {
    &&& e.pin_position is Some
    &&& e.kind matches ChatEntryKind::ToolResult { name, content, .. } && name@ == "skill"@
        && parsed_skill_name(content@) == Some(n)
}

/// Extracts the skill name from a skill body `<skill name="X" ...>`.
pub fn parse_loaded_skill_name(content: &str) -> (r: Option<String>)
    ensures
        match r {
            Some(n) => parsed_skill_name(content@) == Some(n@),
            None => parsed_skill_name(content@) is None,
        },
{
    let prefix = "<skill name=\"";
    proof {
        reveal_strlit("<skill name=\"");
    }
    let plen = prefix.unicode_len();
    let n = content.unicode_len();
    if n < plen {
        return None;
    }
    let mut i: usize = 0;
    while i < plen
        invariant
            plen == skill_prefix().len(),
            prefix@ == skill_prefix(),
            n == content@.len(),
            plen <= n,
            i <= plen,
            forall|k: int| 0 <= k < i ==> content@[k] == skill_prefix()[k],
        decreases plen - i,
    {
        if content.get_char(i) != prefix.get_char(i) {
            proof {
                assert(content@.subrange(0, plen as int)[i as int] != skill_prefix()[i as int]);
            }
            return None;
        }
        i = i + 1;
    }
    proof {
        assert(content@.subrange(0, plen as int) =~= skill_prefix());
    }
    let ghost rest = content@.subrange(plen as int, n as int);
    let mut j: usize = plen;
    while j < n
        invariant
            plen <= j <= n,
            n == content@.len(),
            rest == content@.subrange(plen as int, n as int),
            plen == skill_prefix().len(),
            content@.subrange(0, plen as int) == skill_prefix(),
            forall|k: int| 0 <= k < j - plen ==> #[trigger] rest[k] != '"',
        decreases n - j,
    {
        if content.get_char(j) == '"' {
            proof {
                let q = (j - plen) as int;
                assert(rest[q] == '"');
                assert(is_first_quote(rest, q));
                let q2 = choose|q2: int| is_first_quote(rest, q2);
                if q2 < q {
                    assert(rest[q2] != '"');
                }
                if q < q2 {
                    assert(rest[q] != '"');
                }
                assert(content@.subrange(plen as int, j as int) =~= rest.subrange(0, q));
            }
            let name = content.substring_char(plen, j);
            return Some(String::from_str(name));
        }
        j = j + 1;
    }
    proof {
        assert forall|q: int| !is_first_quote(rest, q) by {
            if 0 <= q < rest.len() {
                assert(rest[q] != '"');
            }
        }
    }
    None
}

impl ChatSessionState {
    /// The names of the skills loaded in this session: those whose bodies
    /// are pinned in history as results of the `skill` tool.
    pub fn loaded_skills(&self) -> (r: StringSet)
        ensures
            r.wf(),
            forall|n: Seq<char>| r@.contains(n) <==> exists|j: int|
                0 <= j < self.core.history@.len() && #[trigger] holds_skill(self.core.history@[j], n),
    {
        let mut out = StringSet::new();
        let len = self.core.history.len();
        let skill = String::from_str("skill");
        let mut i: usize = 0;
        while i < len
            invariant
                len == self.core.history@.len(),
                i <= len,
                skill@ == "skill"@,
                out.wf(),
                forall|n: Seq<char>| out@.contains(n) <==> exists|j: int|
                    0 <= j < i && #[trigger] holds_skill(self.core.history@[j], n),
            decreases len - i,
        {
            let e = &self.core.history[i];
            if e.is_pinned() {
                match &e.kind {
                    ChatEntryKind::ToolResult { name, content, .. } => {
                        if *name == skill {
                            match parse_loaded_skill_name(content.as_str()) {
                                Some(n) => {
                                    let ghost nv = n@;
                                    out.insert(n);
                                    proof {
                                        assert(holds_skill(self.core.history@[i as int], nv));
                                        assert forall|x: Seq<char>| out@.contains(x) <==> exists|j: int|
                                            0 <= j < i + 1 && #[trigger] holds_skill(self.core.history@[j], x) by {
                                            if x == nv {
                                                assert(holds_skill(self.core.history@[i as int], x));
                                            }
                                            if exists|j: int| 0 <= j < i + 1 && #[trigger] holds_skill(self.core.history@[j], x) {
                                                let j = choose|j: int| 0 <= j < i + 1 && #[trigger] holds_skill(self.core.history@[j], x);
                                                if j == i {
                                                    assert(x == nv);
                                                }
                                            }
                                        }
                                    }
                                    i = i + 1;
                                    continue;
                                },
                                None => {},
                            }
                        }
                    },
                    _ => {},
                }
            }
            proof {
                assert(forall|x: Seq<char>| !holds_skill(self.core.history@[i as int], x));
                assert forall|x: Seq<char>| out@.contains(x) <==> exists|j: int|
                    0 <= j < i + 1 && #[trigger] holds_skill(self.core.history@[j], x) by {
                    if exists|j: int| 0 <= j < i + 1 && #[trigger] holds_skill(self.core.history@[j], x) {
                        let j = choose|j: int| 0 <= j < i + 1 && #[trigger] holds_skill(self.core.history@[j], x);
                        assert(j != i);
                    }
                }
            }
            i = i + 1;
        }
        out
    }
}

} // verus!
