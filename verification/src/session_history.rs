//! Changes to the chat history of a session: context overrides, ignored
//! blocks, pins, insertion and restoration.
use vstd::prelude::*;
use crate::entry::{
    by_user, in_context, included_by_default, internal_labeled, override_step, ChangeSource,
    ChatEntry, ChatEntryId, ChatEntryKind, ContextOverride, PinPosition,
};
use crate::session::{bumped_next_id, ChatSessionState, SessionCore, SessionUi};

verus! {

/// The label recorded when entries are marked ignored after compaction.
pub open spec fn mark_ignored_label() -> Seq<char> {
    "mark_entries_ignored"@
}

impl ChatSessionState {
    /// Marks the entries at `indices` as forced out of context (a logged
    /// internal change); indices past the end are ignored.
    pub fn mark_entries_ignored(&mut self, indices: &[usize])
        ensures
            final(self).ui == old(self).ui,
            final(self).core == (SessionCore { history: final(self).core.history, ..old(self).core }),
            final(self).core.history@.len() == old(self).core.history@.len(),
            forall|p: int|
                0 <= p < old(self).core.history@.len() ==> if indices@.contains(p as usize) {
                    override_step(
                        old(self).core.history@[p],
                        #[trigger] final(self).core.history@[p],
                        ContextOverride::ForcedExclude,
                        |c| internal_labeled(c, mark_ignored_label()),
                    )
                } else {
                    final(self).core.history@[p] == old(self).core.history@[p]
                },
    {
        let n = indices.len();
        let mut k: usize = 0;
        while k < n
            invariant
                n == indices@.len(),
                k <= n,
                self.ui == old(self).ui,
                self.core == (SessionCore { history: self.core.history, ..old(self).core }),
                self.core.history@.len() == old(self).core.history@.len(),
                forall|p: int|
                    0 <= p < old(self).core.history@.len() ==> if indices@.subrange(0, k as int).contains(p as usize) {
                        override_step(
                            old(self).core.history@[p],
                            #[trigger] self.core.history@[p],
                            ContextOverride::ForcedExclude,
                            |c| internal_labeled(c, mark_ignored_label()),
                        )
                    } else {
                        self.core.history@[p] == old(self).core.history@[p]
                    },
            decreases n - k,
        {
            let i = indices[k];
            if i < self.core.history.len() {
                let ghost before = self.core.history@;
                let source = ChangeSource::Internal { label: String::from_str("mark_entries_ignored") };
                let ghost logged = crate::entry::ContextChange { value: ContextOverride::ForcedExclude, source };
                assert(internal_labeled(logged, mark_ignored_label()));
                self.core.history[i].apply_context_override(ContextOverride::ForcedExclude, source);
                proof {
                    assert forall|p: int| 0 <= p < old(self).core.history@.len() implies
                        if indices@.subrange(0, k + 1).contains(p as usize) {
                            override_step(
                                old(self).core.history@[p],
                                #[trigger] self.core.history@[p],
                                ContextOverride::ForcedExclude,
                                |c| internal_labeled(c, mark_ignored_label()),
                            )
                        } else {
                            self.core.history@[p] == old(self).core.history@[p]
                        } by {
                        assert(indices@.subrange(0, k + 1) == indices@.subrange(0, k as int).push(i));
                        let pre = indices@.subrange(0, k as int);
                        assert(indices@.subrange(0, k + 1)[k as int] == i);
                        if p != i {
                            assert(self.core.history@[p] == before[p]);
                            if indices@.subrange(0, k + 1).contains(p as usize) {
                                let j = choose|j: int| 0 <= j < k + 1 && #[trigger] indices@.subrange(0, k + 1)[j] == p as usize;
                                assert(j < k);
                                assert(pre[j] == p as usize);
                                assert(pre.contains(p as usize));
                            }
                            if pre.contains(p as usize) {
                                let j = choose|j: int| 0 <= j < k && #[trigger] pre[j] == p as usize;
                                assert(indices@.subrange(0, k + 1)[j] == p as usize);
                            }
                        } else if indices@.subrange(0, k as int).contains(i) {
                            assert(before[p].context_override == ContextOverride::ForcedExclude);
                            assert(self.core.history@[p].context_history@ == before[p].context_history@);
                        } else {
                            assert(before[p] == old(self).core.history@[p]);
                            assert(self.core.history@[p].context_override == ContextOverride::ForcedExclude);
                            if before[p].context_override != ContextOverride::ForcedExclude {
                                assert(self.core.history@[p].context_history@ == before[p].context_history@.push(logged));
                                assert(self.core.history@[p].context_history@.last() == logged);
                            }
                            assert(override_step(
                                old(self).core.history@[p],
                                self.core.history@[p],
                                ContextOverride::ForcedExclude,
                                |c| internal_labeled(c, mark_ignored_label()),
                            ));
                        }
                    }
                }
            } else {
                proof {
                    assert forall|p: int| 0 <= p < old(self).core.history@.len() implies
                        (#[trigger] indices@.subrange(0, k + 1).contains(p as usize)
                            == indices@.subrange(0, k as int).contains(p as usize)) by {
                        assert(indices@.subrange(0, k + 1) == indices@.subrange(0, k as int).push(i));
                    }
                }
            }
            k = k + 1;
        }
        proof {
            assert(indices@.subrange(0, n as int) == indices@);
        }
    }
}

/// The override a toggle moves an entry to: away from the default toward
/// the opposite of its kind's default, or back to the default.
pub open spec fn toggled_override(e: ChatEntry) -> ContextOverride {
    match e.context_override {
        ContextOverride::Default => if included_by_default(e.kind) {
            ContextOverride::ForcedExclude
        } else {
            ContextOverride::ForcedInclude
        },
        _ => ContextOverride::Default,
    }
}

/// `t` is `s` with the entry at history index `h` set to `value` by the user,
/// and `r` reports the entry's id when the value changed.
pub open spec fn user_override_at(
    s: ChatSessionState,
    t: ChatSessionState,
    h: int,
    value: ContextOverride,
    r: Option<ChatEntryId>,
) -> bool {
    &&& t.ui == s.ui
    &&& t.core == (SessionCore { history: t.core.history, ..s.core })
    &&& t.core.history@ == s.core.history@.update(h, t.core.history@[h])
    &&& override_step(s.core.history@[h], t.core.history@[h], value, |c| by_user(c))
    &&& r == if s.core.history@[h].context_override != value {
        Some(s.core.history@[h].id)
    } else {
        None
    }
}

impl ChatSessionState {
    /// Sets the selected entry's override to `value` as a user change.
    fn override_selected(&mut self, toggle: bool, value: ContextOverride) -> (r: Option<ChatEntryId>)
        ensures
            match crate::session_view::selected_hist(*old(self)) {
                Some(h) if 0 <= h < old(self).core.history@.len() => user_override_at(
                    *old(self),
                    *final(self),
                    h,
                    if toggle { toggled_override(old(self).core.history@[h]) } else { value },
                    r,
                ),
                _ => *final(self) == *old(self) && r is None,
            },
    {
        let h = match self.selected_history_index() {
            Some(h) => h,
            None => return None,
        };
        if h >= self.core.history.len() {
            return None;
        }
        let new_value = if toggle {
            match self.core.history[h].context_override() {
                ContextOverride::Default => if self.core.history[h].kind.is_included_by_default() {
                    ContextOverride::ForcedExclude
                } else {
                    ContextOverride::ForcedInclude
                },
                _ => ContextOverride::Default,
            }
        } else {
            value
        };
        let ghost logged = crate::entry::ContextChange { value: new_value, source: ChangeSource::User };
        assert(by_user(logged));
        let id = self.core.history[h].id;
        if self.core.history[h].apply_context_override(new_value, ChangeSource::User) {
            Some(id)
        } else {
            None
        }
    }

    /// Toggles the context override of the selected entry (not of a
    /// collapsed block): from the default to the opposite of the kind's
    /// default, from a forced value back to the default. Returns the entry's
    /// id when the value changed.
    pub fn toggle_entry_ignored(&mut self) -> (r: Option<ChatEntryId>)
        ensures
            match crate::session_view::selected_hist(*old(self)) {
                Some(h) if 0 <= h < old(self).core.history@.len() => user_override_at(
                    *old(self),
                    *final(self),
                    h,
                    toggled_override(old(self).core.history@[h]),
                    r,
                ) && r == Some(old(self).core.history@[h].id),
                _ => *final(self) == *old(self) && r is None,
            },
    {
        self.override_selected(true, ContextOverride::Default)
    }

    /// Sets the context override of the selected entry (not of a collapsed
    /// block) to `value`. Returns the entry's id when the value changed.
    pub fn set_entry_context_override(&mut self, value: ContextOverride) -> (r: Option<ChatEntryId>)
        ensures
            match crate::session_view::selected_hist(*old(self)) {
                Some(h) if 0 <= h < old(self).core.history@.len() => user_override_at(
                    *old(self),
                    *final(self),
                    h,
                    value,
                    r,
                ),
                _ => *final(self) == *old(self) && r is None,
            },
    {
        self.override_selected(false, value)
    }
}

/// Toggling an entry left at its kind's default flips whether it is in
/// context: an entry included by default is forced out, one left out by
/// default (thinking, error, transient) is forced in. Toggling it again
/// brings it back to the default, and so to where it started.
pub proof fn lemma_toggle_from_default_flips_context(
    s: ChatSessionState,
    t: ChatSessionState,
    u: ChatSessionState,
    h: int,
    r1: Option<ChatEntryId>,
    r2: Option<ChatEntryId>,
)
    requires
        0 <= h < s.core.history@.len(),
        s.core.history@[h].context_override == ContextOverride::Default,
        user_override_at(s, t, h, toggled_override(s.core.history@[h]), r1),
        user_override_at(t, u, h, toggled_override(t.core.history@[h]), r2),
    ensures
        crate::entry::in_context(t.core.history@[h]) == !crate::entry::included_by_default(s.core.history@[h].kind),
        t.core.history@[h].context_override != ContextOverride::Default,
        r1 == Some(s.core.history@[h].id),
        u.core.history@[h].context_override == ContextOverride::Default,
        crate::entry::in_context(u.core.history@[h]) == crate::entry::in_context(s.core.history@[h]),
        r2 == Some(s.core.history@[h].id),
{
}

/// Whether an entry ends a run of ignored entries: it is in context, or pinned.
pub open spec fn splits_block(e: ChatEntry) -> bool {
    in_context(e) || e.pin_position is Some
}

/// The start of the run of ignored, unpinned entries that ends just before
/// history index `idx`: the history index `idx` itself belongs to the block
/// that starts there.
pub open spec fn block_start(h: Seq<ChatEntry>, idx: int) -> int
    decreases idx,
{
    if idx <= 0 {
        0
    } else if splits_block(h[idx - 1]) {
        idx
    } else {
        block_start(h, idx - 1)
    }
}

/// The shown blocks after history index `idx` split its block: when the
/// block was shown, the ignored run right after `idx` is shown too.
pub open spec fn propagated_shown(h: Seq<ChatEntry>, idx: int, shown: Set<u64>) -> Set<u64> {
    if shown.contains(h[block_start(h, idx)].id.0) && idx + 1 < h.len() && !splits_block(h[idx + 1]) {
        shown.insert(h[idx + 1].id.0)
    } else {
        shown
    }
}

proof fn lemma_block_start_bounds(h: Seq<ChatEntry>, idx: int)
    requires
        0 <= idx,
    ensures
        0 <= block_start(h, idx) <= idx,
    decreases idx,
{
    if idx > 0 && !splits_block(h[idx - 1]) {
        lemma_block_start_bounds(h, idx - 1);
    }
}

proof fn lemma_block_start_prefix(h: Seq<ChatEntry>, g: Seq<ChatEntry>, idx: int)
    requires
        0 <= idx <= h.len(),
        idx <= g.len(),
        forall|k: int| 0 <= k < idx ==> h[k] == g[k],
    ensures
        block_start(h, idx) == block_start(g, idx),
    decreases idx,
{
    if idx > 0 {
        assert(h[idx - 1] == g[idx - 1]);
        lemma_block_start_prefix(h, g, idx - 1);
    }
}

/// `t` is `s` after pinning the first entry with id `id` at `position`
/// (unchanged for an unknown id). Pinning an ignored entry splits its block,
/// so when that block was shown the ignored run right after it is shown too.
pub open spec fn pinned_rel(s: ChatSessionState, t: ChatSessionState, id: ChatEntryId, position: PinPosition) -> bool {
    match crate::session::find_pos(s.core.history@, id) {
        None => t == s,
        Some(idx) => {
            let h = s.core.history@.update(
                idx,
                ChatEntry { pin_position: Some(position), ..s.core.history@[idx] },
            );
            &&& t.core == (SessionCore { history: t.core.history, ..s.core })
            &&& t.core.history@ == h
            &&& t.ui == (SessionUi { shown_ignored_blocks: t.ui.shown_ignored_blocks, ..s.ui })
            &&& t.ui.shown_ignored_blocks@ == if in_context(s.core.history@[idx]) {
                s.ui.shown_ignored_blocks@
            } else {
                propagated_shown(h, idx, s.ui.shown_ignored_blocks@)
            }
        },
    }
}

/// `t` is `s` after unpinning the first entry with id `id` (unchanged for an
/// unknown id).
pub open spec fn unpinned_rel(s: ChatSessionState, t: ChatSessionState, id: ChatEntryId) -> bool {
    match crate::session::find_pos(s.core.history@, id) {
        None => t == s,
        Some(idx) => {
            &&& t.ui == s.ui
            &&& t.core == (SessionCore { history: t.core.history, ..s.core })
            &&& t.core.history@ == s.core.history@.update(
                idx,
                ChatEntry { pin_position: None, ..s.core.history@[idx] },
            )
        },
    }
}

/// Unpinning an entry just pinned leaves the history as unpinning alone
/// would have: pinning leaves no trace in the history once undone.
pub proof fn lemma_pin_then_unpin(
    s: ChatSessionState,
    t: ChatSessionState,
    u: ChatSessionState,
    v: ChatSessionState,
    id: ChatEntryId,
    position: PinPosition,
)
    requires
        pinned_rel(s, t, id, position),
        unpinned_rel(t, u, id),
        unpinned_rel(s, v, id),
    ensures
        u.core.history@ == v.core.history@,
        u.core == (SessionCore { history: u.core.history, ..v.core }),
{
    match crate::session::find_pos(s.core.history@, id) {
        None => {},
        Some(idx) => {
            let j = choose|j: int| crate::session::is_first_pos(s.core.history@, id, j);
            crate::session::lemma_find_pos(s.core.history@, id, j);
            assert(crate::session::is_first_pos(t.core.history@, id, idx)) by {
                assert forall|k: int| 0 <= k < idx implies (#[trigger] t.core.history@[k]).id != id by {
                    assert(t.core.history@[k] == s.core.history@[k]);
                }
            }
            crate::session::lemma_find_pos(t.core.history@, id, idx);
            assert(u.core.history@ =~= v.core.history@);
        },
    }
}

/// Unpinning twice is unpinning once.
pub proof fn lemma_unpin_idempotent(s: ChatSessionState, t: ChatSessionState, u: ChatSessionState, id: ChatEntryId)
    requires
        unpinned_rel(s, t, id),
        unpinned_rel(t, u, id),
    ensures
        u.core.history@ == t.core.history@,
        u.core == (SessionCore { history: u.core.history, ..t.core }),
        u.ui == t.ui,
{
    match crate::session::find_pos(s.core.history@, id) {
        None => {},
        Some(idx) => {
            let j = choose|j: int| crate::session::is_first_pos(s.core.history@, id, j);
            crate::session::lemma_find_pos(s.core.history@, id, j);
            assert(crate::session::is_first_pos(t.core.history@, id, idx)) by {
                assert forall|k: int| 0 <= k < idx implies (#[trigger] t.core.history@[k]).id != id by {
                    assert(t.core.history@[k] == s.core.history@[k]);
                }
            }
            crate::session::lemma_find_pos(t.core.history@, id, idx);
            assert(u.core.history@ =~= t.core.history@);
        },
    }
}

/// `t` is `s` after inserting `entry` at history index `index`, clamped to
/// the history's length; `r` is where it went. Streaming indices at or
/// after that position move one step later.
pub open spec fn inserted_rel(s: ChatSessionState, t: ChatSessionState, index: usize, entry: ChatEntry, r: usize) -> bool {
    let at: usize = if index < s.core.history@.len() { index } else { s.core.history@.len() as usize };
    &&& r == at
    &&& t.core.history@ == s.core.history@.insert(at as int, entry)
    &&& crate::machine::machine_shifted(s.core.ephemeral.machine, t.core.ephemeral.machine, at)
    &&& t.core.ephemeral == (crate::session::SessionCoreEphemeral {
        machine: t.core.ephemeral.machine,
        next_entry_id: bumped_next_id(s.core.ephemeral.next_entry_id, entry.id),
        ..s.core.ephemeral
    })
    &&& t.core == (SessionCore { history: t.core.history, ephemeral: t.core.ephemeral, ..s.core })
    &&& t.ui == s.ui
}

impl ChatSessionState {
    /// The start of the ignored block that history index `idx` belongs to.
    fn ignored_block_start(&self, idx: usize) -> (b: usize)
        requires
            idx < self.core.history@.len(),
        ensures
            b as int == block_start(self.core.history@, idx as int),
            b <= idx,
    {
        proof {
            lemma_block_start_bounds(self.core.history@, idx as int);
        }
        let mut b = idx;
        while b > 0 && !(self.core.history[b - 1].is_in_context() || self.core.history[b - 1].is_pinned())
            invariant
                b <= idx < self.core.history@.len(),
                block_start(self.core.history@, b as int) == block_start(self.core.history@, idx as int),
            decreases b,
        {
            b = b - 1;
        }
        b
    }

    /// When the block that history index `idx` belongs to is shown, shows
    /// the ignored run that starts right after `idx` as well.
    fn propagate_shown_at(&mut self, idx: usize)
        requires
            idx < old(self).core.history@.len(),
            crate::session::session_wf(*old(self)),
        ensures
            crate::session::session_wf(*final(self)),
            final(self).core == old(self).core,
            final(self).ui == (SessionUi { shown_ignored_blocks: final(self).ui.shown_ignored_blocks, ..old(self).ui }),
            final(self).ui.shown_ignored_blocks@ == propagated_shown(
                old(self).core.history@,
                idx as int,
                old(self).ui.shown_ignored_blocks@,
            ),
    {
        let b = self.ignored_block_start(idx);
        let rep = self.core.history[b].id;
        if !self.ui.shown_ignored_blocks.contains(&rep) {
            return;
        }
        if self.core.history.len() - idx <= 1 {
            return;
        }
        let forward = idx + 1;
        if self.core.history[forward].is_in_context() || self.core.history[forward].is_pinned() {
            return;
        }
        let fid = self.core.history[forward].id;
        self.ui.shown_ignored_blocks.insert(fid);
    }

    /// After the entry `entry_id` came back into context, keeps the entries
    /// after it visible: when its block was shown, the ignored run right
    /// after it is shown too. No-op for an unknown id.
    pub fn propagate_shown_on_unignore(&mut self, entry_id: &ChatEntryId)
        requires
            crate::session::session_wf(*old(self)),
        ensures
            crate::session::session_wf(*final(self)),
            match crate::session::find_pos(old(self).core.history@, *entry_id) {
                None => *final(self) == *old(self),
                Some(idx) => {
                    &&& final(self).core == old(self).core
                    &&& final(self).ui == (SessionUi {
                        shown_ignored_blocks: final(self).ui.shown_ignored_blocks,
                        ..old(self).ui
                    })
                    &&& final(self).ui.shown_ignored_blocks@ == propagated_shown(
                        old(self).core.history@,
                        idx,
                        old(self).ui.shown_ignored_blocks@,
                    )
                },
            },
    {
        match self.find_entry_index_by_id(entry_id) {
            Some(idx) => self.propagate_shown_at(idx),
            None => {},
        }
    }

    /// Shows or hides the collapsed block of ignored entries that
    /// `entry_id` belongs to, keyed by the block's first entry. No-op for an
    /// unknown id or an entry in context.
    pub fn toggle_ignored_block_visibility(&mut self, entry_id: &ChatEntryId)
        requires
            crate::session::session_wf(*old(self)),
        ensures
            crate::session::session_wf(*final(self)),
            match crate::session::find_pos(old(self).core.history@, *entry_id) {
                Some(idx) if !in_context(old(self).core.history@[idx]) => {
                    let rep = old(self).core.history@[block_start(old(self).core.history@, idx)].id.0;
                    &&& final(self).core == old(self).core
                    &&& final(self).ui == (SessionUi {
                        shown_ignored_blocks: final(self).ui.shown_ignored_blocks,
                        ..old(self).ui
                    })
                    &&& final(self).ui.shown_ignored_blocks@ == if old(self).ui.shown_ignored_blocks@.contains(rep) {
                        old(self).ui.shown_ignored_blocks@.remove(rep)
                    } else {
                        old(self).ui.shown_ignored_blocks@.insert(rep)
                    }
                },
                _ => *final(self) == *old(self),
            },
    {
        let idx = match self.find_entry_index_by_id(entry_id) {
            Some(i) => i,
            None => return,
        };
        if self.core.history[idx].is_in_context() {
            return;
        }
        let b = self.ignored_block_start(idx);
        let rep = self.core.history[b].id;
        self.ui.shown_ignored_blocks.toggle(rep);
    }

    /// Pins the first entry with id `id` at `position`. Pinning an ignored
    /// entry splits its block, so when that block was shown the ignored run
    /// right after the entry is shown too. No-op for an unknown id.
    pub fn pin_entry(&mut self, id: &ChatEntryId, position: PinPosition)
        requires
            crate::session::session_wf(*old(self)),
        ensures
            crate::session::session_wf(*final(self)),
            pinned_rel(*old(self), *final(self), *id, position),
    {
        let idx = match self.find_entry_index_by_id(id) {
            Some(i) => i,
            None => return,
        };
        let was_ignored = !self.core.history[idx].is_in_context();
        self.core.history[idx].pin_position = Some(position);
        if was_ignored {
            self.propagate_shown_at(idx);
        }
    }

    /// Unpins the first entry with id `id`. No-op for an unknown id.
    pub fn unpin_entry(&mut self, id: &ChatEntryId)
        ensures
            unpinned_rel(*old(self), *final(self), *id),
    {
        match self.find_entry_index_by_id(id) {
            Some(idx) => {
                self.core.history[idx].pin_position = None;
            },
            None => {},
        }
    }

    /// The pinned entries, in history order.
    pub fn pinned_entries(&self) -> (r: Vec<&ChatEntry>)
        ensures
            r@.map_values(|e: &ChatEntry| *e) == self.core.history@.filter(|e: ChatEntry| e.pin_position is Some),
    {
        let n = self.core.history.len();
        let mut r: Vec<&ChatEntry> = Vec::new();
        let mut i: usize = 0;
        while i < n
            invariant
                n == self.core.history@.len(),
                i <= n,
                r@.map_values(|e: &ChatEntry| *e) == self.core.history@.subrange(0, i as int).filter(
                    |e: ChatEntry| e.pin_position is Some,
                ),
            decreases n - i,
        {
            let ghost before = r@;
            proof {
                assert(self.core.history@.subrange(0, i + 1) == self.core.history@.subrange(0, i as int).push(
                    self.core.history@[i as int],
                ));
                self.core.history@.subrange(0, i as int).lemma_filter_push(
                    self.core.history@[i as int],
                    |e: ChatEntry| e.pin_position is Some,
                );
            }
            if self.core.history[i].is_pinned() {
                r.push(&self.core.history[i]);
                proof {
                    assert(r@.map_values(|e: &ChatEntry| *e) == before.map_values(|e: &ChatEntry| *e).push(
                        self.core.history@[i as int],
                    ));
                }
            }
            i = i + 1;
        }
        proof {
            assert(self.core.history@.subrange(0, n as int) == self.core.history@);
        }
        r
    }

    /// Whether the entry `entry_id` is a tool call whose arguments are
    /// still streaming.
    pub fn is_tool_call_streaming(&self, entry_id: &ChatEntryId) -> (b: bool)
        ensures
            b == match crate::session::find_pos(self.core.history@, *entry_id) {
                Some(idx) => match self.core.ephemeral.machine.streaming_view() {
                    Some(sp) => crate::machine::tracks_history_index(
                        sp.streaming_tool_call_indices@,
                        idx as usize,
                    ),
                    None => false,
                },
                None => false,
            },
    {
        match self.find_entry_index_by_id(entry_id) {
            Some(idx) => self.core.ephemeral.machine.is_tool_call_at_history_index(idx),
            None => false,
        }
    }
}

impl ChatSessionState {
    /// Keeps the id counter past an id that joins the history.
    fn note_entry_id(&mut self, id: ChatEntryId)
        ensures
            final(self).core.ephemeral.next_entry_id == bumped_next_id(old(self).core.ephemeral.next_entry_id, id),
            final(self).core.ephemeral == (crate::session::SessionCoreEphemeral {
                next_entry_id: final(self).core.ephemeral.next_entry_id,
                ..old(self).core.ephemeral
            }),
            final(self).core == (SessionCore { ephemeral: final(self).core.ephemeral, ..old(self).core }),
            final(self).ui == old(self).ui,
    {
        if id.0 >= self.core.ephemeral.next_entry_id && id.0 < u64::MAX {
            self.core.ephemeral.next_entry_id = id.0 + 1;
        }
    }

    /// Inserts `entry` at history index `index`, clamped to the history's
    /// length, and returns where it went. Streaming indices at or after that
    /// position move one step later so they keep naming the same entries.
    pub fn insert_entry_at(&mut self, index: usize, entry: ChatEntry) -> (r: usize)
        requires
            old(self).core.history@.len() < usize::MAX,
        ensures
            inserted_rel(*old(self), *final(self), index, entry, r),
    {
        let at = if index < self.core.history.len() { index } else { self.core.history.len() };
        self.note_entry_id(entry.id);
        self.core.history.insert(at, entry);
        self.core.ephemeral.machine.shift_streaming_indices_for_insert_at(at);
        at
    }

    /// Replaces the history with `entries`, puts the cursor on the last
    /// entry (none when empty) and follows the bottom.
    pub fn restore_history(&mut self, entries: Vec<ChatEntry>)
        ensures
            final(self).core.history@ == entries@,
            final(self).ui == (SessionUi {
                scroll_offset: None,
                selected_cursor_id: if entries@.len() == 0 { None } else { Some(entries@.last().id) },
                ..old(self).ui
            }),
            final(self).core == (SessionCore {
                history: final(self).core.history,
                ephemeral: final(self).core.ephemeral,
                ..old(self).core
            }),
            final(self).core.ephemeral == (crate::session::SessionCoreEphemeral {
                next_entry_id: final(self).core.ephemeral.next_entry_id,
                ..old(self).core.ephemeral
            }),
            final(self).core.ephemeral.next_entry_id >= old(self).core.ephemeral.next_entry_id,
            forall|i: int| 0 <= i < entries@.len() && (#[trigger] entries@[i]).id.0 < u64::MAX
                ==> final(self).core.ephemeral.next_entry_id > entries@[i].id.0,
    {
        let n = entries.len();
        let mut i: usize = 0;
        while i < n
            invariant
                n == entries@.len(),
                i <= n,
                self.ui == old(self).ui,
                self.core == (SessionCore { ephemeral: self.core.ephemeral, ..old(self).core }),
                self.core.ephemeral == (crate::session::SessionCoreEphemeral {
                    next_entry_id: self.core.ephemeral.next_entry_id,
                    ..old(self).core.ephemeral
                }),
                self.core.ephemeral.next_entry_id >= old(self).core.ephemeral.next_entry_id,
                forall|j: int| 0 <= j < i && (#[trigger] entries@[j]).id.0 < u64::MAX
                    ==> self.core.ephemeral.next_entry_id > entries@[j].id.0,
            decreases n - i,
        {
            let id = entries[i].id;
            self.note_entry_id(id);
            i = i + 1;
        }
        let cursor = if n == 0 { None } else { Some(entries[n - 1].id) };
        self.core.history = entries;
        self.ui.selected_cursor_id = cursor;
        self.ui.scroll_offset = None;
    }
}

/// The label recorded when dangling tool calls are swept out of context.
pub open spec fn dangling_sweep_label() -> Seq<char> {
    "dangling_tool_call_sweep"@
}

/// Whether some tool result in `h` answers the tool call `call_id`.
pub open spec fn has_tool_result(h: Seq<ChatEntry>, call_id: Seq<char>) -> bool {
    exists|k: int| 0 <= k < h.len() && #[trigger] tool_result_id(h[k]) == Some(call_id)
}

/// The call id a tool result entry answers.
pub open spec fn tool_result_id(e: ChatEntry) -> Option<Seq<char>> {
    match e.kind {
        ChatEntryKind::ToolResult { id, .. } => Some(id@),
        _ => None,
    }
}

/// Whether history index `i` holds a tool call that no tool result answers.
pub open spec fn dangling_call(h: Seq<ChatEntry>, i: int) -> bool {
    0 <= i < h.len() && match h[i].kind {
        ChatEntryKind::ToolCall { id, .. } => !has_tool_result(h, id@),
        _ => false,
    }
}

/// Whether the sweep forces history index `p` out of context: a dangling
/// tool call, or an empty assistant entry right before one.
pub open spec fn swept(h: Seq<ChatEntry>, p: int) -> bool {
    dangling_call(h, p) || (dangling_call(h, p + 1) && crate::entry::empty_assistant(h[p]))
}

/// The ids the sweep changes while visiting history index `i`: the dangling
/// call, then its empty assistant parent, each when not already excluded.
pub open spec fn sweep_step(h: Seq<ChatEntry>, i: int) -> Seq<ChatEntryId> {
    if dangling_call(h, i) {
        (if h[i].context_override != ContextOverride::ForcedExclude {
            seq![h[i].id]
        } else {
            Seq::empty()
        }) + (if i > 0 && crate::entry::empty_assistant(h[i - 1])
            && h[i - 1].context_override != ContextOverride::ForcedExclude {
            seq![h[i - 1].id]
        } else {
            Seq::empty()
        })
    } else {
        Seq::empty()
    }
}

/// The ids the sweep changes over the first `n` history indices, in order.
pub open spec fn sweep_changes(h: Seq<ChatEntry>, n: int) -> Seq<ChatEntryId>
    decreases n,
{
    if n <= 0 {
        Seq::empty()
    } else {
        sweep_changes(h, n - 1) + sweep_step(h, n - 1)
    }
}

/// `t` is `s` after the dangling tool call sweep, which changed the
/// overrides of `changed`, in order.
pub open spec fn swept_rel(s: ChatSessionState, t: ChatSessionState, changed: Seq<ChatEntryId>) -> bool {
    &&& changed == sweep_changes(s.core.history@, s.core.history@.len() as int)
    &&& t.ui == s.ui
    &&& t.core == (SessionCore { history: t.core.history, ..s.core })
    &&& t.core.history@.len() == s.core.history@.len()
    &&& forall|p: int|
        0 <= p < s.core.history@.len() ==> if swept(s.core.history@, p) {
            override_step(
                s.core.history@[p],
                #[trigger] t.core.history@[p],
                ContextOverride::ForcedExclude,
                |c| internal_labeled(c, dangling_sweep_label()),
            )
        } else {
            t.core.history@[p] == s.core.history@[p]
        }
}

impl ChatSessionState {
    /// Whether some tool result in the history answers `call_id`.
    fn has_result_for(&self, call_id: &String) -> (b: bool)
        ensures
            b == has_tool_result(self.core.history@, call_id@),
    {
        let n = self.core.history.len();
        let mut k: usize = 0;
        while k < n
            invariant
                n == self.core.history@.len(),
                k <= n,
                forall|j: int| 0 <= j < k ==> #[trigger] tool_result_id(self.core.history@[j]) != Some(call_id@),
            decreases n - k,
        {
            match &self.core.history[k].kind {
                ChatEntryKind::ToolResult { id, .. } => {
                    if *id == *call_id {
                        assert(tool_result_id(self.core.history@[k as int]) == Some(call_id@));
                        return true;
                    }
                },
                _ => {},
            }
            k = k + 1;
        }
        false
    }

    /// Whether history index `i` holds a dangling tool call.
    fn is_dangling_call(&self, i: usize) -> (b: bool)
        requires
            i < self.core.history@.len(),
        ensures
            b == dangling_call(self.core.history@, i as int),
    {
        match &self.core.history[i].kind {
            ChatEntryKind::ToolCall { id, .. } => !self.has_result_for(id),
            _ => false,
        }
    }

    /// Forces out of context every tool call that no tool result answers,
    /// and the empty assistant entry right before each (a logged internal
    /// change), so an assembled prompt holds no unanswered calls. Returns
    /// the ids whose override changed, in the order they were visited.
    pub fn force_exclude_dangling_tool_calls(&mut self) -> (r: Vec<ChatEntryId>)
        ensures
            swept_rel(*old(self), *final(self), r@),
    {
        let n = self.core.history.len();
        let mut flags: Vec<bool> = Vec::new();
        let mut i: usize = 0;
        while i < n
            invariant
                n == self.core.history@.len(),
                i <= n,
                flags@.len() == i,
                forall|j: int| 0 <= j < i ==> #[trigger] flags@[j] == dangling_call(self.core.history@, j),
            decreases n - i,
        {
            let d = self.is_dangling_call(i);
            flags.push(d);
            i = i + 1;
        }
        let ghost h0 = self.core.history@;
        let mut changed: Vec<ChatEntryId> = Vec::new();
        let mut i: usize = 0;
        while i < n
            invariant
                n == h0.len(),
                h0 == old(self).core.history@,
                i <= n,
                flags@.len() == n,
                forall|j: int| 0 <= j < n ==> #[trigger] flags@[j] == dangling_call(h0, j),
                self.ui == old(self).ui,
                self.core == (SessionCore { history: self.core.history, ..old(self).core }),
                self.core.history@.len() == n,
                changed@ == sweep_changes(h0, i as int),
                forall|p: int|
                    0 <= p < n ==> if dangling_call(h0, p) && p < i
                        || (p + 1 < i && dangling_call(h0, p + 1) && crate::entry::empty_assistant(h0[p])) {
                        override_step(
                            h0[p],
                            #[trigger] self.core.history@[p],
                            ContextOverride::ForcedExclude,
                            |c| internal_labeled(c, dangling_sweep_label()),
                        )
                    } else {
                        self.core.history@[p] == h0[p]
                    },
            decreases n - i,
        {
            let ghost before = self.core.history@;
            let ghost changed_before = changed@;
            if flags[i] {
                if self.core.history[i].context_override() != ContextOverride::ForcedExclude {
                    let id = self.core.history[i].id;
                    let source = ChangeSource::Internal { label: String::from_str("dangling_tool_call_sweep") };
                    let ghost logged = crate::entry::ContextChange { value: ContextOverride::ForcedExclude, source };
                    assert(internal_labeled(logged, dangling_sweep_label()));
                    self.core.history[i].apply_context_override(ContextOverride::ForcedExclude, source);
                    changed.push(id);
                }
                let ghost mid = self.core.history@;
                let ghost changed_mid = changed@;
                if i > 0 && self.core.history[i - 1].is_empty_assistant()
                    && self.core.history[i - 1].context_override() != ContextOverride::ForcedExclude {
                    let id = self.core.history[i - 1].id;
                    let source = ChangeSource::Internal { label: String::from_str("dangling_tool_call_sweep") };
                    let ghost logged = crate::entry::ContextChange { value: ContextOverride::ForcedExclude, source };
                    assert(internal_labeled(logged, dangling_sweep_label()));
                    self.core.history[i - 1].apply_context_override(ContextOverride::ForcedExclude, source);
                    changed.push(id);
                }
                proof {
                    if i > 0 && crate::entry::empty_assistant(h0[i - 1]) {
                        assert(!dangling_call(h0, i - 1));
                        assert(before[i - 1] == h0[i - 1]);
                    }
                }
            }
            proof {
                assert(sweep_changes(h0, i + 1) == sweep_changes(h0, i as int) + sweep_step(h0, i as int));
                assert(changed@ == changed_before + sweep_step(h0, i as int));
            }
            i = i + 1;
        }
        changed
    }
}

/// `a` and `b` agree on every field, the logged override changes compared
/// by their views.
pub open spec fn same_entry(a: ChatEntry, b: ChatEntry) -> bool {
    &&& a.id == b.id
    &&& a.kind == b.kind
    &&& a.context_override == b.context_override
    &&& a.context_history@ == b.context_history@
    &&& a.pin_position == b.pin_position
    &&& a.timing == b.timing
}

/// A sweep keeps every entry's kind, so it finds the same dangling calls.
proof fn lemma_sweep_keeps_dangling(s: ChatSessionState, t: ChatSessionState, c: Seq<ChatEntryId>, i: int)
    requires
        swept_rel(s, t, c),
    ensures
        dangling_call(t.core.history@, i) == dangling_call(s.core.history@, i),
{
    let h = s.core.history@;
    let g = t.core.history@;
    assert forall|p: int| 0 <= p < h.len() implies #[trigger] g[p].kind == h[p].kind by {
        if swept(h, p) {
            assert(override_step(h[p], g[p], ContextOverride::ForcedExclude, |c| internal_labeled(c, dangling_sweep_label())));
        } else {
            assert(g[p] == h[p]);
        }
    }
    if 0 <= i < h.len() {
        match h[i].kind {
            ChatEntryKind::ToolCall { id, .. } => {
                if has_tool_result(h, id@) {
                    let k = choose|k: int| 0 <= k < h.len() && #[trigger] tool_result_id(h[k]) == Some(id@);
                    assert(g[k].kind == h[k].kind);
                    assert(tool_result_id(g[k]) == Some(id@));
                }
                if has_tool_result(g, id@) {
                    let k = choose|k: int| 0 <= k < g.len() && #[trigger] tool_result_id(g[k]) == Some(id@);
                    assert(g[k].kind == h[k].kind);
                    assert(tool_result_id(h[k]) == Some(id@));
                }
            },
            _ => {},
        }
    }
}

/// A second sweep of dangling tool calls changes nothing: it reports no
/// id, and every entry stays as the first sweep left it.
pub proof fn lemma_sweep_idempotent(
    s: ChatSessionState,
    t: ChatSessionState,
    u: ChatSessionState,
    first: Seq<ChatEntryId>,
    second: Seq<ChatEntryId>,
)
    requires
        swept_rel(s, t, first),
        swept_rel(t, u, second),
    ensures
        second.len() == 0,
        u.ui == t.ui,
        u.core == (SessionCore { history: u.core.history, ..t.core }),
        u.core.history@.len() == t.core.history@.len(),
        forall|p: int| 0 <= p < t.core.history@.len() ==> same_entry(#[trigger] u.core.history@[p], t.core.history@[p]),
{
    let h = s.core.history@;
    let g = t.core.history@;
    let n = g.len() as int;
    assert forall|p: int| 0 <= p < n implies #[trigger] swept(g, p) == swept(h, p) && (swept(h, p)
        ==> g[p].context_override == ContextOverride::ForcedExclude) && g[p].kind == h[p].kind by {
        lemma_sweep_keeps_dangling(s, t, first, p);
        lemma_sweep_keeps_dangling(s, t, first, p + 1);
        if swept(h, p) {
            assert(override_step(h[p], g[p], ContextOverride::ForcedExclude, |c| internal_labeled(c, dangling_sweep_label())));
        } else {
            assert(g[p] == h[p]);
        }
    }
    assert forall|i: int| 0 <= i < n implies #[trigger] sweep_step(g, i).len() == 0 by {
        if dangling_call(g, i) {
            assert(swept(g, i));
            if i > 0 && crate::entry::empty_assistant(g[i - 1]) {
                assert(swept(g, i - 1));
            }
        }
    }
    assert forall|k: int| 0 <= k <= n implies #[trigger] sweep_changes(g, k).len() == 0 by {
        lemma_no_sweep_changes(g, k);
    }
    assert forall|p: int| 0 <= p < n implies same_entry(#[trigger] u.core.history@[p], g[p]) by {
        if swept(g, p) {
            assert(override_step(g[p], u.core.history@[p], ContextOverride::ForcedExclude, |c| internal_labeled(c, dangling_sweep_label())));
        } else {
            assert(u.core.history@[p] == g[p]);
        }
    }
}

/// No sweep step over the first `k` indices changes an id.
proof fn lemma_no_sweep_changes(g: Seq<ChatEntry>, k: int)
    requires
        k <= g.len(),
        forall|i: int| 0 <= i < g.len() ==> #[trigger] sweep_step(g, i).len() == 0,
    ensures
        sweep_changes(g, k).len() == 0,
    decreases k,
{
    if k > 0 {
        lemma_no_sweep_changes(g, k - 1);
    }
}

} // verus!
