//! Applying history mutations submitted by background workers, addressed by
//! entry id, in order, each seeing the effects of the ones before it.
use vstd::prelude::*;
use crate::entry::{override_step, ChangeSource, ChatEntry, ChatEntryId, ContextChange, ContextOverride};
use crate::session::{find_pos, session_wf, ChatSessionState, HistoryMutation, SessionCore};
use crate::session_history::{inserted_rel, pinned_rel, unpinned_rel};

verus! {

/// Whether the user's own last word on the entry was to exclude it.
pub open spec fn user_force_excluded(e: ChatEntry) -> bool {
    &&& e.context_override == ContextOverride::ForcedExclude
    &&& e.context_history@.len() > 0
    &&& e.context_history@.last().source is User
}

/// Whether a submitted override is refused: an entry forced into context is
/// never forced out, and a worker never brings back an entry the user
/// excluded.
pub open spec fn override_refused(e: ChatEntry, value: ContextOverride, source: ChangeSource) -> bool {
    ||| (e.context_override == ContextOverride::ForcedInclude && value == ContextOverride::ForcedExclude)
    ||| (value == ContextOverride::ForcedInclude && source is Worker && user_force_excluded(e))
}

/// `t` is `s` after one mutation, and `changed` the ids whose override it
/// changed. Mutations that name an unknown entry change nothing.
pub open spec fn mutation_rel(
    s: ChatSessionState,
    m: HistoryMutation,
    t: ChatSessionState,
    changed: Seq<ChatEntryId>,
) -> bool {
    match m {
        HistoryMutation::SetContextOverride { entry_id, value, source } => match find_pos(s.core.history@, entry_id) {
            None => t == s && changed.len() == 0,
            Some(i) => if override_refused(s.core.history@[i], value, source) {
                t == s && changed.len() == 0
            } else {
                &&& t.ui == s.ui
                &&& t.core == (SessionCore { history: t.core.history, ..s.core })
                &&& t.core.history@ == s.core.history@.update(i, t.core.history@[i])
                &&& override_step(s.core.history@[i], t.core.history@[i], value, |c: ContextChange| c.source == source)
                &&& changed == if s.core.history@[i].context_override != value {
                    seq![entry_id]
                } else {
                    Seq::empty()
                }
            },
        },
        HistoryMutation::InsertEntry { after_entry_id, entry } => changed.len() == 0 && match after_entry_id {
            None => inserted_rel(s, t, 0, entry, 0),
            Some(id) => match find_pos(s.core.history@, id) {
                None => t == s,
                Some(i) => inserted_rel(s, t, (i + 1) as usize, entry, (i + 1) as usize),
            },
        },
        HistoryMutation::PinEntry { entry_id, position } => changed.len() == 0 && pinned_rel(s, t, entry_id, position),
        HistoryMutation::UnpinEntry { entry_id } => changed.len() == 0 && unpinned_rel(s, t, entry_id),
    }
}

/// `states` and `parts` trace the mutations of `batch` applied in order
/// from `s`: each step takes `states[k]` to `states[k + 1]` and changes the
/// ids `parts[k]`.
pub open spec fn batch_trace(
    s: ChatSessionState,
    batch: Seq<HistoryMutation>,
    states: Seq<ChatSessionState>,
    parts: Seq<Seq<ChatEntryId>>,
) -> bool {
    &&& states.len() == batch.len() + 1
    &&& parts.len() == batch.len()
    &&& states[0] == s
    &&& forall|k: int|
        #![trigger parts[k]]
        0 <= k < batch.len() ==> mutation_rel(states[k], batch[k], states[k + 1], parts[k])
}

/// `t` is `s` after the mutations of `batch` in order, and `changed` the ids
/// whose override they changed, in order.
pub open spec fn batch_rel(
    s: ChatSessionState,
    batch: Seq<HistoryMutation>,
    t: ChatSessionState,
    changed: Seq<ChatEntryId>,
) -> bool {
    exists|states: Seq<ChatSessionState>, parts: Seq<Seq<ChatEntryId>>|
        #[trigger] batch_trace(s, batch, states, parts) && states.last() == t && changed == parts.flatten()
}

/// `states` and `parts` trace the batches of `batches` applied in order from `s`.
pub open spec fn batches_trace(
    s: ChatSessionState,
    batches: Seq<Vec<HistoryMutation>>,
    states: Seq<ChatSessionState>,
    parts: Seq<Seq<ChatEntryId>>,
) -> bool {
    &&& states.len() == batches.len() + 1
    &&& parts.len() == batches.len()
    &&& states[0] == s
    &&& forall|k: int|
        #![trigger parts[k]]
        0 <= k < batches.len() ==> batch_rel(states[k], batches[k]@, states[k + 1], parts[k])
}

/// `t` is `s` after the batches of `batches` in order.
pub open spec fn batches_rel(
    s: ChatSessionState,
    batches: Seq<Vec<HistoryMutation>>,
    t: ChatSessionState,
    changed: Seq<ChatEntryId>,
) -> bool {
    exists|states: Seq<ChatSessionState>, parts: Seq<Seq<ChatEntryId>>|
        #[trigger] batches_trace(s, batches, states, parts) && states.last() == t && changed == parts.flatten()
}

/// `t` is `s` after taking every pending batch and applying them oldest
/// first; `count` batches were taken and the overrides of `changed` changed.
pub open spec fn drained_applied_rel(s: ChatSessionState, t: ChatSessionState, count: usize, changed: Seq<ChatEntryId>) -> bool {
    &&& count == s.core.ephemeral.pending_mutations@.len()
    &&& t.core.ephemeral.pending_mutations@.len() == 0
    &&& batches_rel(
        ChatSessionState {
            core: SessionCore {
                ephemeral: crate::session::SessionCoreEphemeral {
                    pending_mutations: t.core.ephemeral.pending_mutations,
                    ..s.core.ephemeral
                },
                ..s.core
            },
            ..s
        },
        s.core.ephemeral.pending_mutations@,
        t,
        changed,
    )
}

/// The number of mutations in all of `batches`.
pub open spec fn total_mutations(batches: Seq<Vec<HistoryMutation>>) -> nat
    decreases batches.len(),
{
    if batches.len() == 0 {
        0
    } else {
        total_mutations(batches.drop_last()) + batches.last()@.len()
    }
}

/// A batch of one mutation does what that mutation does.
proof fn lemma_single_batch(s: ChatSessionState, m: HistoryMutation, t: ChatSessionState, changed: Seq<ChatEntryId>)
    requires
        batch_rel(s, seq![m], t, changed),
    ensures
        mutation_rel(s, m, t, changed),
{
    let (states, parts) = choose|states: Seq<ChatSessionState>, parts: Seq<Seq<ChatEntryId>>|
        #[trigger] batch_trace(s, seq![m], states, parts) && states.last() == t && changed == parts.flatten();
    assert(mutation_rel(states[0], seq![m][0], states[1], parts[0]));
    assert(parts.drop_first() =~= Seq::<Seq<ChatEntryId>>::empty());
    assert(parts.flatten() =~= parts[0] + parts.drop_first().flatten());
    assert(parts.flatten() =~= parts[0]);
}

/// The first entry with id `id` is at `i`.
proof fn lemma_find_pos_at(h: Seq<ChatEntry>, id: ChatEntryId, i: int)
    requires
        0 <= i < h.len(),
        h[i].id == id,
        forall|j: int| 0 <= j < i ==> h[j].id != id,
    ensures
        find_pos(h, id) == Some(i),
{
    assert(crate::session::is_first_pos(h, id, i));
    let k = choose|k: int| crate::session::is_first_pos(h, id, k);
    if k < i {
        assert(h[k].id != id);
    }
    if i < k {
        assert(h[i].id != id);
    }
}

/// A worker may bring an excluded entry back into context unless the user
/// excluded it: a worker's `ForcedInclude` on the first entry with its id is
/// refused (nothing changes, nothing is reported) exactly when the entry is
/// forced out and its latest recorded change was the user's. Otherwise the
/// entry ends forced in, and its id is reported when that changed its
/// override.
pub proof fn lemma_worker_reinclude(
    s: ChatSessionState,
    t: ChatSessionState,
    entry_id: ChatEntryId,
    name: String,
    changed: Seq<ChatEntryId>,
    i: int,
)
    requires
        batch_rel(
            s,
            seq![HistoryMutation::SetContextOverride { entry_id, value: ContextOverride::ForcedInclude, source: ChangeSource::Worker { name } }],
            t,
            changed,
        ),
        0 <= i < s.core.history@.len(),
        s.core.history@[i].id == entry_id,
        forall|j: int| 0 <= j < i ==> s.core.history@[j].id != entry_id,
    ensures
        ({
            let e = s.core.history@[i];
            let user_excluded = e.context_override == ContextOverride::ForcedExclude && e.context_history@.len() > 0
                && e.context_history@.last().source is User;
            &&& user_excluded ==> t == s && changed.len() == 0
            &&& !user_excluded ==> {
                &&& t.core.history@.len() == s.core.history@.len()
                &&& t.core.history@[i].id == entry_id
                &&& t.core.history@[i].context_override == ContextOverride::ForcedInclude
                &&& changed == if e.context_override != ContextOverride::ForcedInclude {
                    seq![entry_id]
                } else {
                    Seq::<ChatEntryId>::empty()
                }
            }
        }),
{
    let m = HistoryMutation::SetContextOverride {
        entry_id,
        value: ContextOverride::ForcedInclude,
        source: ChangeSource::Worker { name },
    };
    lemma_single_batch(s, m, t, changed);
    lemma_find_pos_at(s.core.history@, entry_id, i);
}

/// Nothing forces out an entry forced into context: a `ForcedExclude` on
/// the first entry with its id, from any source, is refused (nothing
/// changes, nothing is reported) exactly when the entry is forced in.
/// Otherwise the entry ends forced out, and its id is reported when that
/// changed its override.
pub proof fn lemma_exclude_spares_forced_in(
    s: ChatSessionState,
    t: ChatSessionState,
    entry_id: ChatEntryId,
    source: ChangeSource,
    changed: Seq<ChatEntryId>,
    i: int,
)
    requires
        batch_rel(
            s,
            seq![HistoryMutation::SetContextOverride { entry_id, value: ContextOverride::ForcedExclude, source }],
            t,
            changed,
        ),
        0 <= i < s.core.history@.len(),
        s.core.history@[i].id == entry_id,
        forall|j: int| 0 <= j < i ==> s.core.history@[j].id != entry_id,
    ensures
        s.core.history@[i].context_override == ContextOverride::ForcedInclude ==> t == s && changed.len() == 0,
        s.core.history@[i].context_override != ContextOverride::ForcedInclude ==> {
            &&& t.core.history@.len() == s.core.history@.len()
            &&& t.core.history@[i].id == entry_id
            &&& t.core.history@[i].context_override == ContextOverride::ForcedExclude
            &&& changed == if s.core.history@[i].context_override != ContextOverride::ForcedExclude {
                seq![entry_id]
            } else {
                Seq::<ChatEntryId>::empty()
            }
        },
{
    let m = HistoryMutation::SetContextOverride { entry_id, value: ContextOverride::ForcedExclude, source };
    lemma_single_batch(s, m, t, changed);
    lemma_find_pos_at(s.core.history@, entry_id, i);
}

impl ChatSessionState {
    /// Applies one mutation and returns the ids whose override changed.
    fn apply_mutation(&mut self, m: HistoryMutation) -> (r: Vec<ChatEntryId>)
        requires
            session_wf(*old(self)),
            old(self).core.history@.len() < usize::MAX,
        ensures
            session_wf(*final(self)),
            mutation_rel(*old(self), m, *final(self), r@),
            final(self).core.history@.len() <= old(self).core.history@.len() + 1,
            final(self).core.ephemeral.pending_mutations == old(self).core.ephemeral.pending_mutations,
            final(self).core.ephemeral.machine.kind_view() == old(self).core.ephemeral.machine.kind_view(),
    {
        let mut changed: Vec<ChatEntryId> = Vec::new();
        match m {
            HistoryMutation::SetContextOverride { entry_id, value, source } => {
                let i = match self.find_entry_index_by_id(&entry_id) {
                    Some(i) => i,
                    None => return changed,
                };
                let current = self.core.history[i].context_override();
                if current == ContextOverride::ForcedInclude && value == ContextOverride::ForcedExclude {
                    return changed;
                }
                let from_worker = match source {
                    ChangeSource::Worker { .. } => true,
                    _ => false,
                };
                if value == ContextOverride::ForcedInclude && from_worker
                    && self.core.history[i].is_user_force_excluded() {
                    return changed;
                }
                let ghost logged = ContextChange { value, source };
                if self.core.history[i].apply_context_override(value, source) {
                    changed.push(entry_id);
                }
                proof {
                    assert(changed@ == if old(self).core.history@[i as int].context_override != value {
                        seq![entry_id]
                    } else {
                        Seq::<ChatEntryId>::empty()
                    });
                }
            },
            HistoryMutation::InsertEntry { after_entry_id, entry } => {
                match after_entry_id {
                    None => {
                        self.insert_entry_at(0, entry);
                    },
                    Some(id) => match self.find_entry_index_by_id(&id) {
                        Some(i) => {
                            self.insert_entry_at(i + 1, entry);
                        },
                        None => {},
                    },
                }
            },
            HistoryMutation::PinEntry { entry_id, position } => {
                self.pin_entry(&entry_id, position);
            },
            HistoryMutation::UnpinEntry { entry_id } => {
                self.unpin_entry(&entry_id);
            },
        }
        changed
    }

    /// Applies a batch of mutations in order, each seeing the effects of
    /// the ones before it; mutations naming unknown entries are skipped.
    /// Returns the ids whose context override changed, in order.
    pub fn apply_mutations(&mut self, batch: Vec<HistoryMutation>) -> (r: Vec<ChatEntryId>)
        requires
            session_wf(*old(self)),
            old(self).core.history@.len() + batch@.len() < usize::MAX,
        ensures
            session_wf(*final(self)),
            batch_rel(*old(self), batch@, *final(self), r@),
            final(self).core.history@.len() <= old(self).core.history@.len() + batch@.len(),
            final(self).core.ephemeral.pending_mutations == old(self).core.ephemeral.pending_mutations,
            final(self).core.ephemeral.machine.kind_view() == old(self).core.ephemeral.machine.kind_view(),
    {
        let ghost all = batch@;
        let mut rest = batch;
        let mut changed: Vec<ChatEntryId> = Vec::new();
        let mut k: usize = 0;
        let ghost mut states: Seq<ChatSessionState> = seq![*self];
        let ghost mut parts: Seq<Seq<ChatEntryId>> = Seq::empty();
        proof {
            assert(parts.flatten() == Seq::<ChatEntryId>::empty());
        }
        while rest.len() > 0
            invariant
                k + rest@.len() == all.len(),
                rest@ == all.subrange(k as int, all.len() as int),
                session_wf(*self),
                batch_trace(*old(self), all.subrange(0, k as int), states, parts),
                states.last() == *self,
                changed@ == parts.flatten(),
                self.core.history@.len() <= old(self).core.history@.len() + k,
                old(self).core.history@.len() + all.len() < usize::MAX,
                self.core.ephemeral.pending_mutations == old(self).core.ephemeral.pending_mutations,
                self.core.ephemeral.machine.kind_view() == old(self).core.ephemeral.machine.kind_view(),
            decreases rest@.len(),
        {
            let m = rest.remove(0);
            assert(m == all[k as int]);
            let step = self.apply_mutation(m);
            let ghost last = step@;
            let mut step = step;
            changed.append(&mut step);
            proof {
                parts.lemma_flatten_push(last);
                let old_states = states;
                let old_parts = parts;
                states = states.push(*self);
                parts = parts.push(last);
                let pre = all.subrange(0, k + 1);
                assert forall|j: int| 0 <= j < pre.len() implies
                    mutation_rel(states[j], pre[j], states[j + 1], #[trigger] parts[j]) by {
                    if j < k {
                        assert(old_parts[j] == parts[j]);
                        assert(all.subrange(0, k as int)[j] == pre[j]);
                    }
                }
                assert(rest@ == all.subrange(k + 1, all.len() as int));
            }
            k = k + 1;
        }
        proof {
            assert(all.subrange(0, k as int) == all);
            assert(batch_trace(*old(self), all, states, parts));
        }
        changed
    }

    /// Takes every pending mutation batch and applies them oldest first.
    /// Returns the number of batches and the ids whose context override
    /// changed, in order.
    pub fn drain_and_apply_pending_mutations(&mut self) -> (r: (usize, Vec<ChatEntryId>))
        requires
            session_wf(*old(self)),
            old(self).core.history@.len() + total_mutations(old(self).core.ephemeral.pending_mutations@) < usize::MAX,
        ensures
            session_wf(*final(self)),
            drained_applied_rel(*old(self), *final(self), r.0, (r.1)@),
            final(self).core.ephemeral.machine.kind_view() == old(self).core.ephemeral.machine.kind_view(),
    {
        let batches = self.drain_pending_mutations();
        let ghost drained = *self;
        let ghost all = batches@;
        assert(all == old(self).core.ephemeral.pending_mutations@);
        let count = batches.len();
        let mut rest = batches;
        let mut changed: Vec<ChatEntryId> = Vec::new();
        let mut k: usize = 0;
        let ghost mut states: Seq<ChatSessionState> = seq![*self];
        let ghost mut parts: Seq<Seq<ChatEntryId>> = Seq::empty();
        proof {
            assert(parts.flatten() == Seq::<ChatEntryId>::empty());
            assert(all.subrange(0, all.len() as int) == all);
        }
        while rest.len() > 0
            invariant
                k + rest@.len() == all.len(),
                rest@ == all.subrange(k as int, all.len() as int),
                session_wf(*self),
                batches_trace(drained, all.subrange(0, k as int), states, parts),
                states.last() == *self,
                changed@ == parts.flatten(),
                self.core.history@.len() + total_mutations(all.subrange(k as int, all.len() as int))
                    < usize::MAX,
                all == old(self).core.ephemeral.pending_mutations@,
                count == all.len(),
                drained.ui == old(self).ui,
                drained.core == (SessionCore { ephemeral: drained.core.ephemeral, ..old(self).core }),
                drained.core.ephemeral == (crate::session::SessionCoreEphemeral {
                    pending_mutations: drained.core.ephemeral.pending_mutations,
                    ..old(self).core.ephemeral
                }),
                drained.core.ephemeral.pending_mutations@.len() == 0,
                self.core.ephemeral.pending_mutations == drained.core.ephemeral.pending_mutations,
                self.core.ephemeral.machine.kind_view() == old(self).core.ephemeral.machine.kind_view(),
            decreases rest@.len(),
        {
            let b = rest.remove(0);
            assert(b == all[k as int]);
            proof {
                lemma_total_mutations_first(all.subrange(k as int, all.len() as int));
                assert(all.subrange(k as int, all.len() as int).drop_first() == all.subrange(k + 1, all.len() as int));
            }
            let step = self.apply_mutations(b);
            let ghost last = step@;
            let mut step = step;
            changed.append(&mut step);
            proof {
                parts.lemma_flatten_push(last);
                let old_parts = parts;
                states = states.push(*self);
                parts = parts.push(last);
                let pre = all.subrange(0, k + 1);
                assert forall|j: int| 0 <= j < pre.len() implies
                    batch_rel(states[j], pre[j]@, states[j + 1], #[trigger] parts[j]) by {
                    if j < k {
                        assert(old_parts[j] == parts[j]);
                        assert(all.subrange(0, k as int)[j] == pre[j]);
                    }
                }
                assert(rest@ == all.subrange(k + 1, all.len() as int));
            }
            k = k + 1;
        }
        proof {
            assert(all.subrange(0, k as int) == all);
            assert(batches_trace(drained, all, states, parts));
            assert(batches_rel(drained, all, *self, changed@));
            assert(self.core.ephemeral.pending_mutations == drained.core.ephemeral.pending_mutations);
        }
        (count, changed)
    }
}

/// The count of the first batch plus the rest is the total.
proof fn lemma_total_mutations_first(batches: Seq<Vec<HistoryMutation>>)
    requires
        batches.len() > 0,
    ensures
        total_mutations(batches) == batches[0]@.len() + total_mutations(batches.drop_first()),
        total_mutations(batches.drop_first()) >= 0,
    decreases batches.len(),
{
    if batches.len() == 1 {
        assert(batches.drop_last().len() == 0);
        assert(batches.drop_first().len() == 0);
        assert(batches.last() == batches[0]);
        assert(total_mutations(batches.drop_last()) == 0);
        assert(total_mutations(batches.drop_first()) == 0);
        assert(total_mutations(batches) == batches[0]@.len());
    } else {
        let a = batches.drop_last();
        let b = batches.drop_first();
        lemma_total_mutations_first(a);
        assert(a.drop_first() == b.drop_last());
        assert(a[0] == batches[0]);
        assert(b.last() == batches.last());
        assert(total_mutations(batches) == total_mutations(a) + batches.last()@.len());
        assert(total_mutations(b) == total_mutations(b.drop_last()) + b.last()@.len());
        assert(total_mutations(a.drop_first()) == total_mutations(b.drop_last()));
        assert(total_mutations(a) == a[0]@.len() + total_mutations(a.drop_first()));
        assert(total_mutations(batches) == batches[0]@.len() + total_mutations(b));
    }
}

} // verus!
