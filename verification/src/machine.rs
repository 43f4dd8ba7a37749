//! The session phase machine: owns the current [`Phase`] and validates every
//! transition against the expected source phase.
use vstd::prelude::*;
use crate::phase::{spec_kind, IdlePhase, Phase, PhaseKind, StreamingPhase};

verus! {

/// A transition was attempted from a phase that does not allow it.
#[derive(Debug, Clone, Copy, PartialEq, Eq, Structural)]
pub struct TransitionError {
    /// The phase the machine was in when the transition was rejected.
    pub from: PhaseKind,
}

/// The phases before and after a successful transition.
#[derive(Debug, Clone, Copy, PartialEq, Eq, Structural)]
pub struct TransitionOutcome {
    pub old_phase: PhaseKind,
    pub new_phase: PhaseKind,
}

/// Whether some tool-call entry tracked in `s` sits at history index `idx`.
pub open spec fn tracks_history_index(s: Seq<(usize, usize)>, idx: usize) -> bool {
    exists|i: int| 0 <= i < s.len() && #[trigger] s[i].1 == idx
}

/// An index after an insertion at `at`: indices at or after `at` move one
/// step later (saturating at the largest index).
pub open spec fn shifted(i: usize, at: usize) -> usize {
    if i >= at && i < usize::MAX { (i + 1) as usize } else { i }
}

/// An optional index after an insertion at `at`.
pub open spec fn shifted_opt(o: Option<usize>, at: usize) -> Option<usize> {
    match o {
        Some(i) => Some(shifted(i, at)),
        None => None,
    }
}

/// The machine after an insertion into history at `at`: the same phase and
/// flag, with every tracked streaming index shifted.
pub open spec fn machine_shifted(before: SessionPhaseMachine, after: SessionPhaseMachine, at: usize) -> bool {
    &&& after.kind_view() == before.kind_view()
    &&& after.tool_loop_disabled_view() == before.tool_loop_disabled_view()
    &&& match before.streaming_view() {
        Some(sp) => shifted_streaming(sp, after.streaming_view().unwrap(), at),
        None => after.phase_view() == before.phase_view(),
    }
}

/// Every tracked streaming index after an insertion at `at`.
pub open spec fn shifted_streaming(sp: StreamingPhase, after: StreamingPhase, at: usize) -> bool {
    &&& after.streaming_entry_index == shifted_opt(sp.streaming_entry_index, at)
    &&& after.streaming_thinking_entry_index == shifted_opt(sp.streaming_thinking_entry_index, at)
    &&& after.soft_cancel_requested == sp.soft_cancel_requested
    &&& after.streaming_tool_call_indices@.len() == sp.streaming_tool_call_indices@.len()
    &&& forall|i: int|
        0 <= i < sp.streaming_tool_call_indices@.len() ==> (
        #[trigger] after.streaming_tool_call_indices@[i]).0 == sp.streaming_tool_call_indices@[i].0
            && after.streaming_tool_call_indices@[i].1 == shifted(
            sp.streaming_tool_call_indices@[i].1,
            at,
        )
    &&& after.streaming_tool_result_indices@.len() == sp.streaming_tool_result_indices@.len()
    &&& forall|i: int|
        0 <= i < sp.streaming_tool_result_indices@.len() ==> (
        #[trigger] after.streaming_tool_result_indices@[i]).0@
            == sp.streaming_tool_result_indices@[i].0@
            && after.streaming_tool_result_indices@[i].1 == shifted(
            sp.streaming_tool_result_indices@[i].1,
            at,
        )
}

/// Validated phase machine. The single source of truth for the phase.
#[derive(Debug, Clone)]
pub struct SessionPhaseMachine {
    phase: Phase,
    tool_loop_disabled: bool,
}

impl SessionPhaseMachine {
    /// The current phase with its data.
    pub closed spec fn phase_view(&self) -> Phase {
        self.phase
    }

    /// Whether the tool loop has been disabled for the current turn.
    pub closed spec fn tool_loop_disabled_view(&self) -> bool {
        self.tool_loop_disabled
    }

    /// The current phase kind.
    pub open spec fn kind_view(&self) -> PhaseKind {
        spec_kind(self.phase_view())
    }

    /// The streaming data, when streaming.
    pub open spec fn streaming_view(&self) -> Option<StreamingPhase> {
        match self.phase_view() {
            Phase::Streaming(sp) => Some(sp),
            _ => None,
        }
    }

    /// A machine in `Idle` with the tool loop enabled.
    pub fn new() -> (m: SessionPhaseMachine)
        ensures
            m.phase_view() is Idle,
            !m.tool_loop_disabled_view(),
    {
        SessionPhaseMachine { phase: Phase::Idle(IdlePhase), tool_loop_disabled: false }
    }

    /// The current phase kind.
    pub fn kind(&self) -> (k: PhaseKind)
        ensures
            k == self.kind_view(),
    {
        self.phase.kind()
    }

    /// Read access to the current phase.
    pub fn phase(&self) -> (p: &Phase)
        ensures
            *p == self.phase_view(),
    {
        &self.phase
    }

    /// The streaming data, if the machine is streaming.
    pub fn streaming_phase(&self) -> (r: Option<&StreamingPhase>)
        ensures
            match r {
                Some(sp) => self.streaming_view() == Some(*sp),
                None => self.streaming_view() is None,
            },
    {
        match &self.phase {
            Phase::Streaming(sp) => Some(sp),
            _ => None,
        }
    }

    /// Checks that the machine is in `expected`; returns the current kind.
    pub fn validate(&self, expected: PhaseKind) -> (r: Result<PhaseKind, TransitionError>)
        ensures
            self.kind_view() == expected ==> r == Ok::<PhaseKind, TransitionError>(expected),
            self.kind_view() != expected ==> r == Err::<PhaseKind, TransitionError>(
                TransitionError { from: self.kind_view() },
            ),
    {
        let k = self.phase.kind();
        if k == expected {
            Ok(k)
        } else {
            Err(TransitionError { from: k })
        }
    }

    /// Moves to `next` if the machine is currently in `from`; otherwise the
    /// machine is unchanged and the error names the current phase.
    pub fn transition(&mut self, from: PhaseKind, next: Phase) -> (r: Result<
        TransitionOutcome,
        TransitionError,
    >)
        ensures
            old(self).kind_view() == from ==> {
                &&& final(self).phase_view() == next
                &&& r == Ok::<TransitionOutcome, TransitionError>(
                    TransitionOutcome { old_phase: from, new_phase: spec_kind(next) },
                )
            },
            old(self).kind_view() != from ==> {
                &&& final(self).phase_view() == old(self).phase_view()
                &&& r == Err::<TransitionOutcome, TransitionError>(
                    TransitionError { from: old(self).kind_view() },
                )
            },
            final(self).tool_loop_disabled_view() == old(self).tool_loop_disabled_view(),
    {
        let cur = self.phase.kind();
        if cur != from {
            return Err(TransitionError { from: cur });
        }
        let new_kind = next.kind();
        self.phase = next;
        Ok(TransitionOutcome { old_phase: cur, new_phase: new_kind })
    }

    /// Hard cancel: from `Sending` or `Streaming` back to `Idle`, dropping all
    /// streaming data. Rejected when already `Idle`.
    pub fn cancel(&mut self) -> (r: Result<TransitionOutcome, TransitionError>)
        ensures
            old(self).kind_view() == PhaseKind::Idle ==> {
                &&& final(self).phase_view() == old(self).phase_view()
                &&& r == Err::<TransitionOutcome, TransitionError>(
                    TransitionError { from: PhaseKind::Idle },
                )
            },
            old(self).kind_view() != PhaseKind::Idle ==> {
                &&& final(self).phase_view() is Idle
                &&& r == Ok::<TransitionOutcome, TransitionError>(
                    TransitionOutcome {
                        old_phase: old(self).kind_view(),
                        new_phase: PhaseKind::Idle,
                    },
                )
            },
            final(self).tool_loop_disabled_view() == old(self).tool_loop_disabled_view(),
    {
        let cur = self.phase.kind();
        if cur == PhaseKind::Idle {
            return Err(TransitionError { from: cur });
        }
        self.phase = Phase::Idle(IdlePhase);
        Ok(TransitionOutcome { old_phase: cur, new_phase: PhaseKind::Idle })
    }

    /// Soft cancel: while streaming, asks the next stream-completion boundary
    /// to stop the tool loop. Returns whether the request was recorded.
    pub fn soft_cancel(&mut self) -> (r: bool)
        ensures
            r == (old(self).kind_view() == PhaseKind::Streaming),
            r ==> final(self).streaming_view() == Some(
                StreamingPhase {
                    soft_cancel_requested: true,
                    ..old(self).streaming_view().unwrap()
                },
            ),
            !r ==> final(self).phase_view() == old(self).phase_view(),
            final(self).tool_loop_disabled_view() == old(self).tool_loop_disabled_view(),
    {
        match &mut self.phase {
            Phase::Streaming(sp) => {
                sp.soft_cancel_requested = true;
                true
            },
            _ => false,
        }
    }

    /// Disables the tool loop for the current turn.
    pub fn set_tool_loop_disabled(&mut self)
        ensures
            final(self).tool_loop_disabled_view(),
            final(self).phase_view() == old(self).phase_view(),
    {
        self.tool_loop_disabled = true;
    }

    /// Returns the tool-loop-disabled flag and clears it.
    pub fn take_tool_loop_disabled(&mut self) -> (r: bool)
        ensures
            r == old(self).tool_loop_disabled_view(),
            !final(self).tool_loop_disabled_view(),
            final(self).phase_view() == old(self).phase_view(),
    {
        let r = self.tool_loop_disabled;
        self.tool_loop_disabled = false;
        r
    }

    /// Whether the tool loop is disabled, without clearing the flag.
    pub fn is_tool_loop_disabled(&self) -> (r: bool)
        ensures
            r == self.tool_loop_disabled_view(),
    {
        self.tool_loop_disabled
    }

    /// History index of the entry receiving stream tokens (streaming only).
    pub fn streaming_entry_index(&self) -> (r: Option<usize>)
        ensures
            r == match self.streaming_view() {
                Some(sp) => sp.streaming_entry_index,
                None => None,
            },
    {
        match &self.phase {
            Phase::Streaming(sp) => sp.streaming_entry_index,
            _ => None,
        }
    }

    /// History index of the entry receiving thinking tokens (streaming only).
    pub fn streaming_thinking_entry_index(&self) -> (r: Option<usize>)
        ensures
            r == match self.streaming_view() {
                Some(sp) => sp.streaming_thinking_entry_index,
                None => None,
            },
    {
        match &self.phase {
            Phase::Streaming(sp) => sp.streaming_thinking_entry_index,
            _ => None,
        }
    }

    /// Records the streaming entry index; ignored unless streaming.
    pub fn set_streaming_entry_index(&mut self, index: usize)
        ensures
            match old(self).streaming_view() {
                Some(sp) => final(self).streaming_view() == Some(
                    StreamingPhase { streaming_entry_index: Some(index), ..sp },
                ),
                None => final(self).phase_view() == old(self).phase_view(),
            },
            final(self).kind_view() == old(self).kind_view(),
            final(self).tool_loop_disabled_view() == old(self).tool_loop_disabled_view(),
    {
        if let Phase::Streaming(sp) = &mut self.phase {
            sp.streaming_entry_index = Some(index);
        }
    }

    /// Records the thinking entry index; ignored unless streaming.
    pub fn set_streaming_thinking_entry_index(&mut self, index: usize)
        ensures
            match old(self).streaming_view() {
                Some(sp) => final(self).streaming_view() == Some(
                    StreamingPhase { streaming_thinking_entry_index: Some(index), ..sp },
                ),
                None => final(self).phase_view() == old(self).phase_view(),
            },
            final(self).kind_view() == old(self).kind_view(),
            final(self).tool_loop_disabled_view() == old(self).tool_loop_disabled_view(),
    {
        if let Phase::Streaming(sp) = &mut self.phase {
            sp.streaming_thinking_entry_index = Some(index);
        }
    }

    /// Whether an in-progress tool call is tracked at history index `idx`.
    pub fn is_tool_call_at_history_index(&self, idx: usize) -> (r: bool)
        ensures
            r == match self.streaming_view() {
                Some(sp) => tracks_history_index(sp.streaming_tool_call_indices@, idx),
                None => false,
            },
    {
        match &self.phase {
            Phase::Streaming(sp) => {
                assert(self.streaming_view() == Some(*sp));
                let n = sp.streaming_tool_call_indices.len();
                let mut i: usize = 0;
                while i < n
                    invariant
                        self.streaming_view() == Some(*sp),
                        n == sp.streaming_tool_call_indices@.len(),
                        0 <= i <= n,
                        forall|j: int| 0 <= j < i ==> sp.streaming_tool_call_indices@[j].1 != idx,
                    decreases n - i,
                {
                    if sp.streaming_tool_call_indices[i].1 == idx {
                        assert(sp.streaming_tool_call_indices@[i as int].1 == idx);
                        assert(tracks_history_index(sp.streaming_tool_call_indices@, idx));
                        return true;
                    }
                    i = i + 1;
                }
                false
            },
            _ => false,
        }
    }

    /// Moves every tracked streaming index at or after `at` one step later,
    /// keeping them pointing at the same entries after an insertion at `at`.
    pub fn shift_streaming_indices_for_insert_at(&mut self, at: usize)
        ensures
            machine_shifted(*old(self), *final(self), at),
    {
        if let Phase::Streaming(sp) = &mut self.phase {
            let ghost old_sp = *sp;
            sp.streaming_entry_index = shift_opt(sp.streaming_entry_index, at);
            sp.streaming_thinking_entry_index = shift_opt(sp.streaming_thinking_entry_index, at);
            let ghost mid_entry = sp.streaming_entry_index;
            let ghost mid_thinking = sp.streaming_thinking_entry_index;
            let n = sp.streaming_tool_call_indices.len();
            let mut i: usize = 0;
            while i < n
                invariant
                    sp.streaming_entry_index == mid_entry,
                    sp.streaming_thinking_entry_index == mid_thinking,
                    sp.soft_cancel_requested == old_sp.soft_cancel_requested,
                    sp.streaming_tool_result_indices == old_sp.streaming_tool_result_indices,
                    n == old_sp.streaming_tool_call_indices@.len(),
                    sp.streaming_tool_call_indices@.len() == n,
                    0 <= i <= n,
                    forall|j: int|
                        0 <= j < i ==> (#[trigger] sp.streaming_tool_call_indices@[j]).0
                            == old_sp.streaming_tool_call_indices@[j].0
                            && sp.streaming_tool_call_indices@[j].1 == shifted(
                            old_sp.streaming_tool_call_indices@[j].1,
                            at,
                        ),
                    forall|j: int|
                        i <= j < n ==> #[trigger] sp.streaming_tool_call_indices@[j]
                            == old_sp.streaming_tool_call_indices@[j],
                decreases n - i,
            {
                let (k, v) = sp.streaming_tool_call_indices[i];
                sp.streaming_tool_call_indices.set(i, (k, shift_one(v, at)));
                i = i + 1;
            }
            let ghost mid_calls = sp.streaming_tool_call_indices@;
            let m = sp.streaming_tool_result_indices.len();
            let mut i: usize = 0;
            while i < m
                invariant
                    sp.streaming_entry_index == mid_entry,
                    sp.streaming_thinking_entry_index == mid_thinking,
                    sp.soft_cancel_requested == old_sp.soft_cancel_requested,
                    sp.streaming_tool_call_indices@ == mid_calls,
                    m == old_sp.streaming_tool_result_indices@.len(),
                    sp.streaming_tool_result_indices@.len() == m,
                    0 <= i <= m,
                    forall|j: int|
                        0 <= j < i ==> (#[trigger] sp.streaming_tool_result_indices@[j]).0@
                            == old_sp.streaming_tool_result_indices@[j].0@
                            && sp.streaming_tool_result_indices@[j].1 == shifted(
                            old_sp.streaming_tool_result_indices@[j].1,
                            at,
                        ),
                    forall|j: int|
                        i <= j < m ==> #[trigger] sp.streaming_tool_result_indices@[j]
                            == old_sp.streaming_tool_result_indices@[j],
                decreases m - i,
            {
                let v = sp.streaming_tool_result_indices[i].1;
                sp.streaming_tool_result_indices[i].1 = shift_one(v, at);
                i = i + 1;
            }
        }
    }
}

/// The history index tracked for stream tool-call index `k`: the first pair
/// with that key.
pub open spec fn call_lookup(s: Seq<(usize, usize)>, k: usize) -> Option<usize>
    decreases s.len(),
{
    if s.len() == 0 {
        None
    } else if s[0].0 == k {
        Some(s[0].1)
    } else {
        call_lookup(s.drop_first(), k)
    }
}

proof fn lemma_call_lookup_push(s: Seq<(usize, usize)>, k: usize, v: usize, q: usize)
    ensures
        call_lookup(s.push((k, v)), q) == match call_lookup(s, q) {
            Some(x) => Some(x),
            None => if q == k { Some(v) } else { None },
        },
    decreases s.len(),
{
    if s.len() > 0 {
        assert(s.push((k, v)).drop_first() == s.drop_first().push((k, v)));
        assert(s.push((k, v))[0] == s[0]);
        lemma_call_lookup_push(s.drop_first(), k, v, q);
    } else {
        assert(s.push((k, v)).drop_first() == Seq::<(usize, usize)>::empty());
        assert(s.push((k, v))[0] == (k, v));
        assert(call_lookup(Seq::<(usize, usize)>::empty(), q) is None);
    }
}

proof fn lemma_call_lookup_prefix(s: Seq<(usize, usize)>, i: int, q: usize)
    requires
        0 <= i < s.len(),
    ensures
        call_lookup(s.subrange(0, i + 1), q) == match call_lookup(s.subrange(0, i), q) {
            Some(x) => Some(x),
            None => if q == s[i].0 { Some(s[i].1) } else { None },
        },
{
    assert(s.subrange(0, i + 1) == s.subrange(0, i).push(s[i]));
    lemma_call_lookup_push(s.subrange(0, i), s[i].0, s[i].1, q);
}

/// The history index tracked for the tool result of call `k`.
pub open spec fn result_lookup(s: Seq<(String, usize)>, k: Seq<char>) -> Option<usize> {
    crate::assoc::lookup(s, k)
}

/// Once a prefix finds key `q`, the whole list finds it there.
proof fn lemma_call_lookup_extend(s: Seq<(usize, usize)>, i: int, q: usize)
    requires
        0 <= i <= s.len(),
        call_lookup(s.subrange(0, i), q) is Some,
    ensures
        call_lookup(s, q) == call_lookup(s.subrange(0, i), q),
    decreases s.len() - i,
{
    if i == s.len() {
        assert(s.subrange(0, i) == s);
    } else {
        lemma_call_lookup_prefix(s, i, q);
        lemma_call_lookup_extend(s, i + 1, q);
    }
}

impl SessionPhaseMachine {
    /// The history index tracked for stream tool-call index `k` (streaming only).
    pub fn streaming_tool_call_index(&self, k: usize) -> (r: Option<usize>)
        ensures
            r == match self.streaming_view() {
                Some(sp) => call_lookup(sp.streaming_tool_call_indices@, k),
                None => None,
            },
    {
        match &self.phase {
            Phase::Streaming(sp) => {
                let n = sp.streaming_tool_call_indices.len();
                let mut i: usize = 0;
                while i < n
                    invariant
                        self.streaming_view() == Some(*sp),
                        n == sp.streaming_tool_call_indices@.len(),
                        i <= n,
                        call_lookup(sp.streaming_tool_call_indices@.subrange(0, i as int), k) is None,
                    decreases n - i,
                {
                    proof {
                        lemma_call_lookup_prefix(sp.streaming_tool_call_indices@, i as int, k);
                    }
                    if sp.streaming_tool_call_indices[i].0 == k {
                        proof {
                            lemma_call_lookup_extend(sp.streaming_tool_call_indices@, i + 1, k);
                        }
                        return Some(sp.streaming_tool_call_indices[i].1);
                    }
                    i = i + 1;
                }
                proof {
                    assert(sp.streaming_tool_call_indices@.subrange(0, n as int) == sp.streaming_tool_call_indices@);
                }
                None
            },
            _ => None,
        }
    }

    /// Tracks stream tool-call index `k` at history index `v`, replacing any
    /// earlier tracking of `k`; ignored unless streaming.
    pub fn track_tool_call(&mut self, k: usize, v: usize)
        ensures
            final(self).kind_view() == old(self).kind_view(),
            final(self).tool_loop_disabled_view() == old(self).tool_loop_disabled_view(),
            match old(self).streaming_view() {
                Some(sp) => {
                    let fsp = final(self).streaming_view().unwrap();
                    &&& fsp == StreamingPhase {
                        streaming_tool_call_indices: fsp.streaming_tool_call_indices,
                        ..sp
                    }
                    &&& call_lookup(fsp.streaming_tool_call_indices@, k) == Some(v)
                    &&& forall|q: usize| q != k ==> call_lookup(fsp.streaming_tool_call_indices@, q)
                        == call_lookup(sp.streaming_tool_call_indices@, q)
                    &&& forall|j: int| 0 <= j < fsp.streaming_tool_call_indices@.len()
                        ==> (#[trigger] fsp.streaming_tool_call_indices@[j]).1 == v
                            || exists|i: int| 0 <= i < sp.streaming_tool_call_indices@.len()
                                && sp.streaming_tool_call_indices@[i] == fsp.streaming_tool_call_indices@[j]
                },
                None => *final(self) == *old(self),
            },
    {
        if let Phase::Streaming(sp) = &mut self.phase {
            let ghost old_calls = sp.streaming_tool_call_indices@;
            let n = sp.streaming_tool_call_indices.len();
            let mut kept: Vec<(usize, usize)> = Vec::new();
            let mut i: usize = 0;
            while i < n
                invariant
                    n == old_calls.len(),
                    sp.streaming_tool_call_indices@ == old_calls,
                    i <= n,
                    forall|q: usize| q != k ==> call_lookup(kept@, q)
                        == call_lookup(old_calls.subrange(0, i as int), q),
                    call_lookup(kept@, k) is None,
                    forall|j: int| 0 <= j < kept@.len() ==> exists|i2: int| 0 <= i2 < old_calls.len()
                        && old_calls[i2] == #[trigger] kept@[j],
                decreases n - i,
            {
                let pair = sp.streaming_tool_call_indices[i];
                proof {
                    lemma_call_lookup_prefix(old_calls, i as int, k);
                    assert forall|q: usize| q != k implies #[trigger] call_lookup(old_calls.subrange(0, i + 1), q)
                        == match call_lookup(old_calls.subrange(0, i as int), q) {
                            Some(x) => Some(x),
                            None => if q == old_calls[i as int].0 { Some(old_calls[i as int].1) } else { None },
                        } by {
                        lemma_call_lookup_prefix(old_calls, i as int, q);
                    }
                }
                if pair.0 != k {
                    let ghost before = kept@;
                    kept.push(pair);
                    proof {
                        assert forall|q: usize| q != k implies call_lookup(kept@, q)
                            == call_lookup(old_calls.subrange(0, i + 1), q) by {
                            lemma_call_lookup_push(before, pair.0, pair.1, q);
                        }
                        lemma_call_lookup_push(before, pair.0, pair.1, k);
                        assert forall|j: int| 0 <= j < kept@.len() implies exists|i2: int| 0 <= i2 < old_calls.len()
                            && old_calls[i2] == #[trigger] kept@[j] by {
                            if j == before.len() {
                                assert(old_calls[i as int] == kept@[j]);
                            } else {
                                assert(kept@[j] == before[j]);
                            }
                        }
                    }
                }
                i = i + 1;
            }
            let ghost before = kept@;
            kept.push((k, v));
            proof {
                assert(old_calls.subrange(0, n as int) == old_calls);
                lemma_call_lookup_push(before, k, v, k);
                assert forall|q: usize| q != k implies call_lookup(kept@, q) == call_lookup(old_calls, q) by {
                    lemma_call_lookup_push(before, k, v, q);
                }
                assert forall|j: int| 0 <= j < kept@.len() implies (#[trigger] kept@[j]).1 == v
                    || exists|i2: int| 0 <= i2 < old_calls.len() && old_calls[i2] == kept@[j] by {
                    if j < before.len() {
                        assert(kept@[j] == before[j]);
                    }
                }
            }
            sp.streaming_tool_call_indices = kept;
        }
    }

    /// The history index tracked for the tool result of call `k` (streaming only).
    pub fn streaming_tool_result_index(&self, k: &str) -> (r: Option<usize>)
        ensures
            r == match self.streaming_view() {
                Some(sp) => result_lookup(sp.streaming_tool_result_indices@, k@),
                None => None,
            },
    {
        match &self.phase {
            Phase::Streaming(sp) => match crate::assoc::find_key(&sp.streaming_tool_result_indices, k) {
                Some(i) => Some(sp.streaming_tool_result_indices[i].1),
                None => None,
            },
            _ => None,
        }
    }
}

/// The tool-result pairs of `s` without key `k`.
fn without_result_key(s: &Vec<(String, usize)>, k: &str) -> (r: Vec<(String, usize)>)
    ensures
        result_lookup(r@, k@) is None,
        forall|q: Seq<char>| q != k@ ==> #[trigger] result_lookup(r@, q) == result_lookup(s@, q),
        forall|j: int| 0 <= j < r@.len() ==> exists|i: int| 0 <= i < s@.len() && s@[i].0@ == (#[trigger] r@[j]).0@
            && s@[i].1 == r@[j].1,
{
    let key = String::from_str(k);
    let n = s.len();
    let mut kept: Vec<(String, usize)> = Vec::new();
    let mut i: usize = 0;
    while i < n
        invariant
            n == s@.len(),
            key@ == k@,
            i <= n,
            result_lookup(kept@, k@) is None,
            forall|q: Seq<char>| q != k@ ==> #[trigger] result_lookup(kept@, q)
                == result_lookup(s@.subrange(0, i as int), q),
            forall|j: int| 0 <= j < kept@.len() ==> exists|i2: int| 0 <= i2 < s@.len()
                && s@[i2].0@ == (#[trigger] kept@[j]).0@ && s@[i2].1 == kept@[j].1,
        decreases n - i,
    {
        proof {
            assert(s@.subrange(0, i + 1) == s@.subrange(0, i as int).push(s@[i as int]));
            assert forall|q: Seq<char>| q != k@ implies #[trigger] result_lookup(s@.subrange(0, i + 1), q)
                == match result_lookup(s@.subrange(0, i as int), q) {
                    Some(x) => Some(x),
                    None => if q == s@[i as int].0@ { Some(s@[i as int].1) } else { None },
                } by {
                crate::assoc::lemma_lookup_push(s@.subrange(0, i as int), s@[i as int].0, s@[i as int].1, q);
            }
        }
        if s[i].0 != key {
            let ghost before = kept@;
            let name = s[i].0.clone();
            kept.push((name, s[i].1));
            proof {
                crate::assoc::lemma_lookup_push(before, name, s@[i as int].1, k@);
                assert forall|q: Seq<char>| q != k@ implies #[trigger] result_lookup(kept@, q)
                    == result_lookup(s@.subrange(0, i + 1), q) by {
                    crate::assoc::lemma_lookup_push(before, name, s@[i as int].1, q);
                    assert(result_lookup(before, q) == result_lookup(s@.subrange(0, i as int), q));
                    assert(result_lookup(s@.subrange(0, i + 1), q) == match result_lookup(s@.subrange(0, i as int), q) {
                        Some(x) => Some(x),
                        None => if q == s@[i as int].0@ { Some(s@[i as int].1) } else { None },
                    });
                }
                assert forall|j: int| 0 <= j < kept@.len() implies exists|i2: int| 0 <= i2 < s@.len()
                    && s@[i2].0@ == (#[trigger] kept@[j]).0@ && s@[i2].1 == kept@[j].1 by {
                    if j == before.len() {
                        assert(s@[i as int].0@ == kept@[j].0@);
                    } else {
                        assert(kept@[j] == before[j]);
                    }
                }
            }
        }
        i = i + 1;
    }
    proof {
        assert(s@.subrange(0, n as int) == s@);
    }
    kept
}

impl SessionPhaseMachine {
    /// Tracks the tool result of call `k` at history index `v`, replacing any
    /// earlier tracking of `k`; ignored unless streaming.
    pub fn track_tool_result(&mut self, k: &str, v: usize)
        ensures
            final(self).kind_view() == old(self).kind_view(),
            final(self).tool_loop_disabled_view() == old(self).tool_loop_disabled_view(),
            match old(self).streaming_view() {
                Some(sp) => {
                    let fsp = final(self).streaming_view().unwrap();
                    &&& fsp == StreamingPhase {
                        streaming_tool_result_indices: fsp.streaming_tool_result_indices,
                        ..sp
                    }
                    &&& result_lookup(fsp.streaming_tool_result_indices@, k@) == Some(v)
                    &&& forall|q: Seq<char>| q != k@ ==> #[trigger] result_lookup(fsp.streaming_tool_result_indices@, q)
                        == result_lookup(sp.streaming_tool_result_indices@, q)
                    &&& forall|j: int| 0 <= j < fsp.streaming_tool_result_indices@.len()
                        ==> (#[trigger] fsp.streaming_tool_result_indices@[j]).1 == v
                            || exists|i: int| 0 <= i < sp.streaming_tool_result_indices@.len()
                                && sp.streaming_tool_result_indices@[i].1 == fsp.streaming_tool_result_indices@[j].1
                },
                None => *final(self) == *old(self),
            },
    {
        if let Phase::Streaming(sp) = &mut self.phase {
            let mut kept = without_result_key(&sp.streaming_tool_result_indices, k);
            let ghost before = kept@;
            let key = String::from_str(k);
            kept.push((key, v));
            proof {
                crate::assoc::lemma_lookup_push(before, key, v, k@);
                assert forall|q: Seq<char>| q != k@ implies #[trigger] result_lookup(kept@, q)
                    == result_lookup(sp.streaming_tool_result_indices@, q) by {
                    crate::assoc::lemma_lookup_push(before, key, v, q);
                    assert(result_lookup(before, q) == result_lookup(sp.streaming_tool_result_indices@, q));
                }
                assert forall|j: int| 0 <= j < kept@.len() implies (#[trigger] kept@[j]).1 == v
                    || exists|i: int| 0 <= i < sp.streaming_tool_result_indices@.len()
                        && sp.streaming_tool_result_indices@[i].1 == kept@[j].1 by {
                    if j < before.len() {
                        assert(kept@[j] == before[j]);
                    }
                }
            }
            sp.streaming_tool_result_indices = kept;
        }
    }

    /// Takes the tracked tool result of call `k`, if any (streaming only).
    pub fn take_tool_result_index(&mut self, k: &str) -> (r: Option<usize>)
        ensures
            r is None ==> *final(self) == *old(self),
            final(self).kind_view() == old(self).kind_view(),
            final(self).tool_loop_disabled_view() == old(self).tool_loop_disabled_view(),
            match old(self).streaming_view() {
                Some(sp) => {
                    let fsp = final(self).streaming_view().unwrap();
                    &&& r == result_lookup(sp.streaming_tool_result_indices@, k@)
                    &&& fsp == StreamingPhase {
                        streaming_tool_result_indices: fsp.streaming_tool_result_indices,
                        ..sp
                    }
                    &&& result_lookup(fsp.streaming_tool_result_indices@, k@) is None
                    &&& forall|q: Seq<char>| q != k@ ==> #[trigger] result_lookup(fsp.streaming_tool_result_indices@, q)
                        == result_lookup(sp.streaming_tool_result_indices@, q)
                    &&& forall|j: int| 0 <= j < fsp.streaming_tool_result_indices@.len()
                        ==> exists|i: int| 0 <= i < sp.streaming_tool_result_indices@.len()
                                && sp.streaming_tool_result_indices@[i].1
                                == (#[trigger] fsp.streaming_tool_result_indices@[j]).1
                },
                None => r is None && *final(self) == *old(self),
            },
    {
        if let Phase::Streaming(sp) = &mut self.phase {
            let found = match crate::assoc::find_key(&sp.streaming_tool_result_indices, k) {
                Some(i) => Some(sp.streaming_tool_result_indices[i].1),
                None => None,
            };
            if found.is_some() {
                let kept = without_result_key(&sp.streaming_tool_result_indices, k);
                sp.streaming_tool_result_indices = kept;
            }
            found
        } else {
            None
        }
    }
}

/// `shifted` in executable form.
fn shift_one(i: usize, at: usize) -> (r: usize)
    ensures
        r == shifted(i, at),
{
    if i >= at && i < usize::MAX {
        i + 1
    } else {
        i
    }
}

/// `shifted_opt` in executable form.
fn shift_opt(o: Option<usize>, at: usize) -> (r: Option<usize>)
    ensures
        r == shifted_opt(o, at),
{
    match o {
        Some(i) => Some(shift_one(i, at)),
        None => None,
    }
}

} // verus!
