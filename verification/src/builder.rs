//! A builder that records session operations and replays them on a new
//! session, for setting up sessions in tests.
use vstd::prelude::*;
use vstd::string::*;
use crate::entry::{ChatEntry, ChatEntryId, ChatEntryKind, PinPosition};
use crate::phase::PhaseKind;
use crate::session::{fresh_session, pushed_rel, session_wf, ChatSessionState};
use crate::session_history::pinned_rel;
use crate::session_stream::{machine_only, minted_push};
use crate::transition::is_fresh_streaming;

verus! {

/// One recorded operation.
#[derive(Debug, Clone)]
pub enum BuilderOp {
    /// Append this entry.
    PushEntry(ChatEntry),
    /// Append a user message with this text and a freshly minted id.
    PushUser(String),
    /// Begin streaming.
    BeginStreaming,
    /// Mark a message as dispatched.
    BeginSending,
    /// Pin the most recently appended entry.
    PinLast(PinPosition),
}

/// Records operations and replays them on a new session.
#[derive(Debug, Clone)]
pub struct ChatSessionStateBuilder {
    pub ops: Vec<BuilderOp>,
}

/// `t` is `s` after replaying `op`; `last` and `last2` are the ids of the
/// most recently appended entry before and after.
pub open spec fn op_rel(
    s: ChatSessionState,
    last: Option<ChatEntryId>,
    op: BuilderOp,
    t: ChatSessionState,
    last2: Option<ChatEntryId>,
) -> bool {
    match op {
        BuilderOp::PushEntry(e) => pushed_rel(s, t, e) && last2 == Some(e.id),
        BuilderOp::PushUser(text) => {
            let e = t.core.history@.last();
            &&& minted_push(s, t, e, s.core.ephemeral.machine)
            &&& e.kind matches ChatEntryKind::User { display, attachments } && display@ == text@
                && attachments@.len() == 0
            &&& crate::entry::fresh_entry(e, e.id, e.kind)
            &&& last2 == Some(e.id)
        },
        BuilderOp::BeginStreaming => {
            &&& machine_only(s, t)
            &&& t.core.ephemeral.machine.tool_loop_disabled_view() == s.core.ephemeral.machine.tool_loop_disabled_view()
            &&& if s.core.ephemeral.machine.kind_view() == PhaseKind::Streaming {
                t.core.ephemeral.machine.phase_view() == s.core.ephemeral.machine.phase_view()
            } else {
                is_fresh_streaming(t.core.ephemeral.machine.phase_view())
            }
            &&& last2 == last
        },
        BuilderOp::BeginSending => {
            &&& machine_only(s, t)
            &&& t.core.ephemeral.machine.tool_loop_disabled_view() == s.core.ephemeral.machine.tool_loop_disabled_view()
            &&& if s.core.ephemeral.machine.kind_view() == PhaseKind::Idle {
                t.core.ephemeral.machine.phase_view() is Sending
            } else {
                t.core.ephemeral.machine.phase_view() == s.core.ephemeral.machine.phase_view()
            }
            &&& last2 == last
        },
        BuilderOp::PinLast(position) => {
            &&& match last {
                Some(id) => pinned_rel(s, t, id, position),
                None => t == s,
            }
            &&& last2 == last
        },
    }
}

/// `states` and `lasts` trace the replay of `ops` from `s`.
pub open spec fn replay_trace(
    s: ChatSessionState,
    ops: Seq<BuilderOp>,
    states: Seq<ChatSessionState>,
    lasts: Seq<Option<ChatEntryId>>,
) -> bool {
    &&& states.len() == ops.len() + 1
    &&& lasts.len() == ops.len() + 1
    &&& states[0] == s
    &&& lasts[0] is None
    &&& forall|k: int|
        #![trigger ops[k]]
        0 <= k < ops.len() ==> op_rel(states[k], lasts[k], ops[k], states[k + 1], lasts[k + 1])
}

impl ChatSessionState {
    /// A builder with no operations recorded.
    pub fn builder() -> (b: ChatSessionStateBuilder)
        ensures
            b.ops@.len() == 0,
    {
        ChatSessionStateBuilder { ops: Vec::new() }
    }
}

impl ChatSessionStateBuilder {
    /// Records appending a user message with text `text`.
    pub fn with_user_entry(self, text: &str) -> (b: ChatSessionStateBuilder)
        ensures
            b.ops@.len() == self.ops@.len() + 1,
            b.ops@.drop_last() == self.ops@,
            b.ops@.last() matches BuilderOp::PushUser(t) && t@ == text@,
    {
        let mut ops = self.ops;
        ops.push(BuilderOp::PushUser(String::from_str(text)));
        ChatSessionStateBuilder { ops }
    }

    /// Records appending `entry`.
    pub fn with_entry(self, entry: ChatEntry) -> (b: ChatSessionStateBuilder)
        ensures
            b.ops@ == self.ops@.push(BuilderOp::PushEntry(entry)),
    {
        let mut ops = self.ops;
        ops.push(BuilderOp::PushEntry(entry));
        ChatSessionStateBuilder { ops }
    }

    /// Records beginning to stream.
    pub fn begin_streaming(self) -> (b: ChatSessionStateBuilder)
        ensures
            b.ops@ == self.ops@.push(BuilderOp::BeginStreaming),
    {
        let mut ops = self.ops;
        ops.push(BuilderOp::BeginStreaming);
        ChatSessionStateBuilder { ops }
    }

    /// Records dispatching a message.
    pub fn begin_sending(self) -> (b: ChatSessionStateBuilder)
        ensures
            b.ops@ == self.ops@.push(BuilderOp::BeginSending),
    {
        let mut ops = self.ops;
        ops.push(BuilderOp::BeginSending);
        ChatSessionStateBuilder { ops }
    }

    /// Records pinning the most recently appended entry at `position`.
    pub fn with_pin(self, position: PinPosition) -> (b: ChatSessionStateBuilder)
        ensures
            b.ops@ == self.ops@.push(BuilderOp::PinLast(position)),
    {
        let mut ops = self.ops;
        ops.push(BuilderOp::PinLast(position));
        ChatSessionStateBuilder { ops }
    }

    /// Replays the recorded operations, in order, on a new session.
    pub fn build(self) -> (s: ChatSessionState)
        requires
            self.ops@.len() < usize::MAX,
        ensures
            exists|start: ChatSessionState, states: Seq<ChatSessionState>, lasts: Seq<Option<ChatEntryId>>| {
                &&& fresh_session(start)
                &&& #[trigger] replay_trace(start, self.ops@, states, lasts)
                &&& states.last() == s
            },
    {
        let mut session = ChatSessionState::new();
        let ghost start = session;
        let ghost all = self.ops@;
        let mut last_id: Option<ChatEntryId> = None;
        let mut rest = self.ops;
        let mut k: usize = 0;
        let ghost mut states: Seq<ChatSessionState> = seq![session];
        let ghost mut lasts: Seq<Option<ChatEntryId>> = seq![None];
        proof {
            assert(all.subrange(0, all.len() as int) == all);
        }
        while rest.len() > 0
            invariant
                k + rest@.len() == all.len(),
                all.len() < usize::MAX,
                rest@ == all.subrange(k as int, all.len() as int),
                fresh_session(start),
                replay_trace(start, all.subrange(0, k as int), states, lasts),
                states.last() == session,
                lasts.last() == last_id,
                session_wf(session),
                session.core.history@.len() <= k,
            decreases rest@.len(),
        {
            let op = rest.remove(0);
            assert(op == all[k as int]);
            let ghost before = session;
            match op {
                BuilderOp::PushEntry(e) => {
                    let id = e.id;
                    session.push_entry(e);
                    last_id = Some(id);
                },
                BuilderOp::PushUser(text) => {
                    let e = ChatEntry::user(ChatEntryId(0), text.as_str());
                    session.push_new_entry(e);
                    let n = session.core.history.len();
                    last_id = Some(session.core.history[n - 1].id);
                },
                BuilderOp::BeginStreaming => {
                    session.begin_streaming();
                },
                BuilderOp::BeginSending => {
                    session.begin_sending();
                },
                BuilderOp::PinLast(position) => {
                    match last_id {
                        Some(id) => {
                            session.pin_entry(&id, position);
                        },
                        None => {},
                    }
                },
            }
            proof {
                let old_states = states;
                let old_lasts = lasts;
                states = states.push(session);
                lasts = lasts.push(last_id);
                assert(op_rel(before, old_lasts.last(), op, session, last_id));
                let pre = all.subrange(0, k + 1);
                assert forall|j: int| 0 <= j < pre.len() implies op_rel(
                    states[j],
                    lasts[j],
                    #[trigger] pre[j],
                    states[j + 1],
                    lasts[j + 1],
                ) by {
                    if j < k {
                        assert(all.subrange(0, k as int)[j] == pre[j]);
                        assert(old_states[j] == states[j] && old_states[j + 1] == states[j + 1]);
                        assert(old_lasts[j] == lasts[j] && old_lasts[j + 1] == lasts[j + 1]);
                    }
                }
                assert(rest@ == all.subrange(k + 1, all.len() as int));
            }
            k = k + 1;
        }
        proof {
            assert(all.subrange(0, k as int) == all);
            assert(replay_trace(start, all, states, lasts));
        }
        session
    }
}

} // verus!
