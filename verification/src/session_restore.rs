//! What happens to a session brought back from disk: the model it talks to,
//! its working directory, and the order in which saved sessions load at
//! startup.
use vstd::prelude::*;
use vstd::string::*;
use crate::entry::{ChatEntry, ChatEntryId, ChatEntryKind};
use crate::ids::SessionId;
use crate::profile::{ModelSelection, SessionProfile, NO_PROVIDER_ID};
use crate::session::{ChatSessionState, SessionCore};

verus! {

/// `m` is the "no provider chosen" sentinel.
pub open spec fn names_no_provider(m: ModelSelection) -> bool {
    m matches ModelSelection::Single(s) && s@ == NO_PROVIDER_ID@
}

impl ModelSelection {
    /// Whether this is the "no provider chosen" sentinel.
    pub fn is_no_provider(&self) -> (b: bool)
        ensures
            b == names_no_provider(*self),
    {
        match self {
            ModelSelection::Single(s) => {
                let sentinel = String::from_str(NO_PROVIDER_ID);
                *s == sentinel
            },
            ModelSelection::Alloy(_) => false,
        }
    }
}

/// `t` is `s` with its model replaced by `m`.
pub open spec fn model_set(s: ChatSessionState, t: ChatSessionState, m: ModelSelection) -> bool {
    &&& t.core == (SessionCore { profile: SessionProfile { model: m, ..s.core.profile }, ..s.core })
    &&& t.ui == s.ui
}

/// The warning noted when a session's directory is gone.
pub open spec fn cwd_warning(missing: Seq<char>, fallback: Seq<char>) -> Seq<char> {
    "Warning: working directory '"@ + missing + "' not found, falling back to '"@ + fallback + "'"@
}

impl ChatSessionState {
    /// Applies the model saved in the app state at startup: only a session
    /// still without a provider takes it (a session created with an
    /// explicit model keeps it).
    pub fn apply_last_model(&mut self, last_model: Option<ModelSelection>)
        ensures
            match last_model {
                Some(m) if names_no_provider(old(self).core.profile.model) => model_set(*old(self), *final(self), m),
                _ => *final(self) == *old(self),
            },
    {
        match last_model {
            Some(m) => {
                if self.core.profile.model.is_no_provider() {
                    self.set_model(m);
                }
            },
            None => {},
        }
    }

    /// Restores the model of a session loaded from disk and marks it as
    /// interacted (it was persisted before): a session without a provider
    /// takes the saved model, or the sentinel when none was saved.
    pub fn restore_loaded_model(&mut self, last_model: Option<ModelSelection>)
        ensures
            final(self).ui == old(self).ui,
            final(self).core == (SessionCore {
                profile: SessionProfile { model: final(self).core.profile.model, ..old(self).core.profile },
                has_interacted: true,
                ..old(self).core
            }),
            names_no_provider(old(self).core.profile.model) ==> match last_model {
                Some(m) => final(self).core.profile.model == m,
                None => names_no_provider(final(self).core.profile.model),
            },
            !names_no_provider(old(self).core.profile.model) ==> final(self).core.profile.model
                == old(self).core.profile.model,
    {
        if self.core.profile.model.is_no_provider() {
            let m = match last_model {
                Some(m) => m,
                None => ModelSelection::no_provider(),
            };
            self.set_model(m);
        }
        self.mark_interacted();
    }

    /// Settles the working directory of a loaded session: when it does not
    /// exist on disk (`cwd_exists` is false), a system entry warns about it
    /// and the session falls back to `default_cwd`.
    pub fn settle_cwd(&mut self, cwd_exists: bool, default_cwd: String)
        requires
            old(self).core.history@.len() < usize::MAX,
        ensures
            cwd_exists ==> *final(self) == *old(self),
            !cwd_exists ==> {
                let e = final(self).core.history@.last();
                &&& final(self).core.cwd == default_cwd
                &&& final(self).core.history@.len() == old(self).core.history@.len() + 1
                &&& e.kind matches ChatEntryKind::System(text) && text@ == cwd_warning(
                    old(self).core.cwd@,
                    default_cwd@,
                )
                &&& crate::entry::fresh_entry(e, ChatEntryId(old(self).core.ephemeral.next_entry_id), e.kind)
                &&& exists|pushed: ChatSessionState| {
                    &&& #[trigger] crate::session_stream::minted_push(
                        *old(self),
                        pushed,
                        e,
                        old(self).core.ephemeral.machine,
                    )
                    &&& final(self).core == (SessionCore { cwd: default_cwd, ..pushed.core })
                    &&& final(self).ui == pushed.ui
                }
            },
    {
        if cwd_exists {
            return;
        }
        proof {
            reveal_strlit("Warning: working directory '");
            reveal_strlit("' not found, falling back to '");
            reveal_strlit("'");
        }
        let mut text = String::from_str("Warning: working directory '");
        text.append(self.core.cwd.as_str());
        text.append("' not found, falling back to '");
        text.append(default_cwd.as_str());
        text.append("'");
        let warning = ChatEntry::system(ChatEntryId(0), text.as_str());
        self.push_new_entry(warning);
        let ghost pushed = *self;
        self.set_cwd(default_cwd);
        assert(crate::session_stream::minted_push(
            *old(self),
            pushed,
            self.core.history@.last(),
            old(self).core.ephemeral.machine,
        ));
    }
}

/// `p` lists each of `0..n` exactly once.
pub open spec fn is_permutation(p: Seq<usize>, n: nat) -> bool {
    &&& p.len() == n
    &&& forall|k: int| 0 <= k < p.len() ==> #[trigger] p[k] < n
    &&& forall|k: int, l: int| 0 <= k < l < p.len() ==> #[trigger] p[k] != #[trigger] p[l]
}

/// `p` orders the positions of `keys` by key, largest first, keeping the
/// given order among equal keys.
pub open spec fn newest_first(p: Seq<usize>, keys: Seq<i128>) -> bool {
    &&& is_permutation(p, keys.len())
    &&& forall|k: int, l: int|
        0 <= k < l < p.len() ==> {
            ||| keys[#[trigger] p[k] as int] > keys[#[trigger] p[l] as int]
            ||| keys[p[k] as int] == keys[p[l] as int] && p[k] < p[l]
        }
}

/// The update times of `sessions`, in order.
pub open spec fn update_keys(sessions: Seq<(SessionId, i128)>) -> Seq<i128> {
    sessions.map_values(|x: (SessionId, i128)| x.1)
}

/// The order in which saved sessions load at startup: by last update
/// (`updated`, in nanoseconds), the most recent first; sessions updated at
/// the same instant keep their given order.
pub fn startup_load_order(sessions: &Vec<(SessionId, i128)>) -> (r: Vec<SessionId>)
    ensures
        exists|p: Seq<usize>| {
            &&& #[trigger] newest_first(p, update_keys(sessions@))
            &&& r@.len() == p.len()
            &&& forall|k: int| 0 <= k < p.len() ==> r@[k] == sessions@[#[trigger] p[k] as int].0
        },
{
    let ghost keys = update_keys(sessions@);
    let n = sessions.len();
    let mut order: Vec<usize> = Vec::new();
    let mut i: usize = 0;
    while i < n
        invariant
            n == sessions@.len(),
            keys == update_keys(sessions@),
            i <= n,
            order@.len() == i,
            forall|k: int| 0 <= k < order@.len() ==> #[trigger] order@[k] < i,
            forall|k: int, l: int| 0 <= k < l < order@.len() ==> #[trigger] order@[k] != #[trigger] order@[l],
            forall|k: int, l: int|
                0 <= k < l < order@.len() ==> {
                    ||| keys[#[trigger] order@[k] as int] > keys[#[trigger] order@[l] as int]
                    ||| keys[order@[k] as int] == keys[order@[l] as int] && order@[k] < order@[l]
                },
        decreases n - i,
    {
        let key = sessions[i].1;
        let m = order.len();
        let mut j: usize = 0;
        while j < m && sessions[order[j]].1 >= key
            invariant
                n == sessions@.len(),
                keys == update_keys(sessions@),
                i < n,
                key == keys[i as int],
                m == order@.len(),
                j <= m,
                forall|k: int| 0 <= k < order@.len() ==> #[trigger] order@[k] < i,
                forall|k: int| 0 <= k < j ==> keys[#[trigger] order@[k] as int] >= key,
            decreases m - j,
        {
            j = j + 1;
        }
        let ghost before = order@;
        proof {
            if j < m {
                assert(keys[before[j as int] as int] < key);
                assert forall|k: int| j <= k < m implies keys[#[trigger] before[k] as int] < key by {
                    if k > j {
                        assert(keys[before[j as int] as int] >= keys[before[k] as int]);
                    }
                }
            }
        }
        order.insert(j, i);
        proof {
            let after = order@;
            assert(after =~= before.insert(j as int, i));
            assert forall|k: int, l: int| 0 <= k < l < after.len() implies {
                ||| keys[#[trigger] after[k] as int] > keys[#[trigger] after[l] as int]
                ||| keys[after[k] as int] == keys[after[l] as int] && after[k] < after[l]
            } by {
                if l < j {
                    assert(after[k] == before[k] && after[l] == before[l]);
                } else if l == j {
                    assert(after[k] == before[k]);
                } else if k == j {
                    assert(after[l] == before[l - 1]);
                } else if k < j {
                    assert(after[k] == before[k] && after[l] == before[l - 1]);
                } else {
                    assert(after[k] == before[k - 1] && after[l] == before[l - 1]);
                }
            }
            assert forall|k: int, l: int| 0 <= k < l < after.len() implies #[trigger] after[k] != #[trigger] after[l] by {
                if l < j {
                    assert(after[k] == before[k] && after[l] == before[l]);
                } else if l == j {
                    assert(after[k] == before[k]);
                } else if k == j {
                    assert(after[l] == before[l - 1]);
                } else if k < j {
                    assert(after[k] == before[k] && after[l] == before[l - 1]);
                } else {
                    assert(after[k] == before[k - 1] && after[l] == before[l - 1]);
                }
            }
            assert forall|k: int| 0 <= k < after.len() implies #[trigger] after[k] < i + 1 by {
                if k < j {
                    assert(after[k] == before[k]);
                } else if k > j {
                    assert(after[k] == before[k - 1]);
                }
            }
        }
        i = i + 1;
    }
    let mut r: Vec<SessionId> = Vec::new();
    let mut k: usize = 0;
    while k < n
        invariant
            n == sessions@.len(),
            n == order@.len(),
            forall|q: int| 0 <= q < order@.len() ==> #[trigger] order@[q] < n,
            k <= n,
            r@.len() == k,
            forall|q: int| 0 <= q < k ==> r@[q] == sessions@[#[trigger] order@[q] as int].0,
        decreases n - k,
    {
        let idx = order[k];
        r.push(sessions[idx].0);
        k = k + 1;
    }
    assert(newest_first(order@, keys));
    r
}

} // verus!
