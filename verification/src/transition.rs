//! Event-named transition methods for the [`SessionPhaseMachine`].
use vstd::prelude::*;
use crate::machine::{SessionPhaseMachine, TransitionError, TransitionOutcome};
use crate::phase::{spec_kind, IdlePhase, Phase, PhaseKind, SendingPhase, StreamingPhase};

verus! {

/// Whether `p` is a freshly entered streaming phase (nothing tracked yet).
pub open spec fn is_fresh_streaming(p: Phase) -> bool {
    match p {
        Phase::Streaming(sp) => {
            &&& sp.streaming_entry_index is None
            &&& sp.streaming_thinking_entry_index is None
            &&& sp.streaming_tool_call_indices@.len() == 0
            &&& sp.streaming_tool_result_indices@.len() == 0
            &&& !sp.soft_cancel_requested
        },
        _ => false,
    }
}

/// The outcome of a transition `from -> to` that was accepted.
pub open spec fn accepted(from: PhaseKind, to: PhaseKind) -> Result<
    TransitionOutcome,
    TransitionError,
> {
    Ok(TransitionOutcome { old_phase: from, new_phase: to })
}

/// The outcome of a transition rejected in phase `k`.
pub open spec fn rejected(k: PhaseKind) -> Result<TransitionOutcome, TransitionError> {
    Err(TransitionError { from: k })
}

/// Transition methods, each named after the event that triggers it. Each one
/// is valid from exactly one source phase; from any other phase it is
/// rejected and the machine is left as it was.
pub trait PhaseTransitions {
    /// `Idle -> Sending`: a message has been dispatched to the LLM.
    fn on_dispatch_message(&mut self) -> Result<TransitionOutcome, TransitionError>;

    /// `Sending -> Streaming`: the first token has arrived.
    fn on_first_token(&mut self) -> Result<TransitionOutcome, TransitionError>;

    /// `Streaming -> Sending` (tool loop continues), or `Streaming -> Idle`
    /// when a soft cancel was requested.
    fn on_stream_completed_tool_use(&mut self) -> Result<TransitionOutcome, TransitionError>;

    /// `Streaming -> Idle`: stream ended normally.
    fn on_stream_completed_finished(&mut self) -> Result<TransitionOutcome, TransitionError>;

    /// `Streaming -> Idle`: stream ended with an error.
    fn on_stream_completed_error(&mut self) -> Result<TransitionOutcome, TransitionError>;

    /// `Streaming -> Idle`: stream was canceled by the user.
    fn on_stream_completed_canceled(&mut self) -> Result<TransitionOutcome, TransitionError>;

    /// `Sending -> Streaming`, or `Sending -> Idle` when the tool loop was
    /// disabled. The tool-loop-disabled flag is consumed either way.
    fn on_tool_batch_completed(&mut self) -> Result<TransitionOutcome, TransitionError>;
}

impl PhaseTransitions for SessionPhaseMachine {
    fn on_dispatch_message(&mut self) -> (r: Result<TransitionOutcome, TransitionError>)
        ensures
            old(self).kind_view() == PhaseKind::Idle ==> final(self).phase_view() is Sending && r
                == accepted(PhaseKind::Idle, PhaseKind::Sending),
            old(self).kind_view() != PhaseKind::Idle ==> final(self).phase_view()
                == old(self).phase_view() && r == rejected(old(self).kind_view()),
            final(self).tool_loop_disabled_view() == old(self).tool_loop_disabled_view(),
    {
        self.transition(PhaseKind::Idle, Phase::Sending(SendingPhase))
    }

    fn on_first_token(&mut self) -> (r: Result<TransitionOutcome, TransitionError>)
        ensures
            old(self).kind_view() == PhaseKind::Sending ==> is_fresh_streaming(
                final(self).phase_view(),
            ) && r == accepted(PhaseKind::Sending, PhaseKind::Streaming),
            old(self).kind_view() != PhaseKind::Sending ==> final(self).phase_view()
                == old(self).phase_view() && r == rejected(old(self).kind_view()),
            final(self).tool_loop_disabled_view() == old(self).tool_loop_disabled_view(),
    {
        self.transition(PhaseKind::Sending, Phase::Streaming(StreamingPhase::new()))
    }

    fn on_stream_completed_tool_use(&mut self) -> (r: Result<TransitionOutcome, TransitionError>)
        ensures
            match old(self).streaming_view() {
                Some(sp) => if sp.soft_cancel_requested {
                    final(self).phase_view() is Idle && r == accepted(
                        PhaseKind::Streaming,
                        PhaseKind::Idle,
                    )
                } else {
                    final(self).phase_view() is Sending && r == accepted(
                        PhaseKind::Streaming,
                        PhaseKind::Sending,
                    )
                },
                None => final(self).phase_view() == old(self).phase_view() && r == rejected(
                    old(self).kind_view(),
                ),
            },
            final(self).tool_loop_disabled_view() == old(self).tool_loop_disabled_view(),
    {
        let soft_cancel = match self.streaming_phase() {
            Some(sp) => sp.soft_cancel_requested,
            None => false,
        };
        let next = if soft_cancel {
            Phase::Idle(IdlePhase)
        } else {
            Phase::Sending(SendingPhase)
        };
        self.transition(PhaseKind::Streaming, next)
    }

    fn on_stream_completed_finished(&mut self) -> (r: Result<TransitionOutcome, TransitionError>)
        ensures
            old(self).kind_view() == PhaseKind::Streaming ==> final(self).phase_view() is Idle
                && r == accepted(PhaseKind::Streaming, PhaseKind::Idle),
            old(self).kind_view() != PhaseKind::Streaming ==> final(self).phase_view()
                == old(self).phase_view() && r == rejected(old(self).kind_view()),
            final(self).tool_loop_disabled_view() == old(self).tool_loop_disabled_view(),
    {
        self.transition(PhaseKind::Streaming, Phase::Idle(IdlePhase))
    }

    fn on_stream_completed_error(&mut self) -> (r: Result<TransitionOutcome, TransitionError>)
        ensures
            old(self).kind_view() == PhaseKind::Streaming ==> final(self).phase_view() is Idle
                && r == accepted(PhaseKind::Streaming, PhaseKind::Idle),
            old(self).kind_view() != PhaseKind::Streaming ==> final(self).phase_view()
                == old(self).phase_view() && r == rejected(old(self).kind_view()),
            final(self).tool_loop_disabled_view() == old(self).tool_loop_disabled_view(),
    {
        self.transition(PhaseKind::Streaming, Phase::Idle(IdlePhase))
    }

    fn on_stream_completed_canceled(&mut self) -> (r: Result<TransitionOutcome, TransitionError>)
        ensures
            old(self).kind_view() == PhaseKind::Streaming ==> final(self).phase_view() is Idle
                && r == accepted(PhaseKind::Streaming, PhaseKind::Idle),
            old(self).kind_view() != PhaseKind::Streaming ==> final(self).phase_view()
                == old(self).phase_view() && r == rejected(old(self).kind_view()),
            final(self).tool_loop_disabled_view() == old(self).tool_loop_disabled_view(),
    {
        self.transition(PhaseKind::Streaming, Phase::Idle(IdlePhase))
    }

    fn on_tool_batch_completed(&mut self) -> (r: Result<TransitionOutcome, TransitionError>)
        ensures
            !final(self).tool_loop_disabled_view(),
            old(self).kind_view() == PhaseKind::Sending && old(self).tool_loop_disabled_view()
                ==> final(self).phase_view() is Idle && r == accepted(
                PhaseKind::Sending,
                PhaseKind::Idle,
            ),
            old(self).kind_view() == PhaseKind::Sending && !old(self).tool_loop_disabled_view()
                ==> is_fresh_streaming(final(self).phase_view()) && r == accepted(
                PhaseKind::Sending,
                PhaseKind::Streaming,
            ),
            old(self).kind_view() != PhaseKind::Sending ==> final(self).phase_view()
                == old(self).phase_view() && r == rejected(old(self).kind_view()),
    {
        let disabled = self.take_tool_loop_disabled();
        let next = if disabled {
            Phase::Idle(IdlePhase)
        } else {
            Phase::Streaming(StreamingPhase::new())
        };
        self.transition(PhaseKind::Sending, next)
    }
}

} // verus!
