//! Messages the session feature sends and receives.
use vstd::prelude::*;
use crate::ids::SessionId;
use crate::phase::PhaseKind;
use crate::session::HistoryMutation;

verus! {

/// Asks for the entries of the session picker.
#[derive(Debug, Clone, Copy)]
pub struct LoadSessionPickerEntries;

/// Asks to clear the history of a session.
#[derive(Debug, Clone, Copy)]
pub struct ResetSessionHistory {
    pub session_id: SessionId,
}

/// Asks to retry the last turn of a stalled session.
#[derive(Debug, Clone, Copy)]
pub struct RetryStalledSession {
    pub session_id: SessionId,
}

/// A session was archived.
#[derive(Debug, Clone, Copy)]
pub struct SessionArchived {
    pub session_id: SessionId,
}

/// Asks for a new session.
#[derive(Debug, Clone, Copy)]
pub struct SessionNew;

/// The phase of a session changed.
#[derive(Debug, Clone, Copy)]
pub struct SessionPhaseChanged {
    pub session_id: SessionId,
    pub old_phase: PhaseKind,
    pub new_phase: PhaseKind,
}

/// History mutations submitted by a background worker for a session.
#[derive(Debug, Clone)]
pub struct SubmitHistoryMutations {
    pub session_id: SessionId,
    pub mutations: Vec<HistoryMutation>,
}

/// The task list of a session changed.
#[derive(Debug, Clone, Copy)]
pub struct TaskListUpdated {
    pub session_id: SessionId,
}

/// The user interacted with a session.
#[derive(Debug, Clone, Copy)]
pub struct UserInteracted {
    pub session_id: SessionId,
}

/// The event announcing a phase change of session `session_id`: only when
/// the phase actually changed.
pub fn phase_changed_event(session_id: SessionId, old_phase: PhaseKind, new_phase: PhaseKind) -> (r: Option<
    SessionPhaseChanged,
>)
    ensures
        old_phase == new_phase ==> r is None,
        old_phase != new_phase ==> r == Some(SessionPhaseChanged { session_id, old_phase, new_phase }),
{
    if old_phase != new_phase {
        Some(SessionPhaseChanged { session_id, old_phase, new_phase })
    } else {
        None
    }
}

} // verus!
