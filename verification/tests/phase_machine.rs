use jinn_domain::machine::{SessionPhaseMachine, TransitionError, TransitionOutcome};
use jinn_domain::phase::{Phase, PhaseKind};
use jinn_domain::transition::PhaseTransitions;

#[test]
fn new_machine_is_idle() {
    let m = SessionPhaseMachine::new();
    assert_eq!(m.kind(), PhaseKind::Idle);
    assert!(!m.is_tool_loop_disabled());
}

#[test]
fn full_turn_walks_idle_sending_streaming_idle() {
    let mut m = SessionPhaseMachine::new();
    assert_eq!(
        m.on_dispatch_message(),
        Ok(TransitionOutcome { old_phase: PhaseKind::Idle, new_phase: PhaseKind::Sending })
    );
    assert_eq!(
        m.on_first_token(),
        Ok(TransitionOutcome { old_phase: PhaseKind::Sending, new_phase: PhaseKind::Streaming })
    );
    assert_eq!(
        m.on_stream_completed_finished(),
        Ok(TransitionOutcome { old_phase: PhaseKind::Streaming, new_phase: PhaseKind::Idle })
    );
    assert_eq!(m.kind(), PhaseKind::Idle);
}

#[test]
fn transition_from_wrong_phase_is_rejected_and_keeps_phase() {
    let mut m = SessionPhaseMachine::new();
    assert_eq!(m.on_first_token(), Err(TransitionError { from: PhaseKind::Idle }));
    assert_eq!(m.kind(), PhaseKind::Idle);
    assert_eq!(m.on_stream_completed_error(), Err(TransitionError { from: PhaseKind::Idle }));
    assert_eq!(m.on_tool_batch_completed(), Err(TransitionError { from: PhaseKind::Idle }));
}

#[test]
fn tool_use_continues_the_loop_unless_soft_canceled() {
    let mut m = SessionPhaseMachine::new();
    m.on_dispatch_message().unwrap();
    m.on_first_token().unwrap();
    assert_eq!(m.on_stream_completed_tool_use().unwrap().new_phase, PhaseKind::Sending);
    m.on_tool_batch_completed().unwrap();
    assert_eq!(m.kind(), PhaseKind::Streaming);
    assert!(m.soft_cancel());
    assert_eq!(m.on_stream_completed_tool_use().unwrap().new_phase, PhaseKind::Idle);
}

#[test]
fn soft_cancel_outside_streaming_is_refused() {
    let mut m = SessionPhaseMachine::new();
    assert!(!m.soft_cancel());
    m.on_dispatch_message().unwrap();
    assert!(!m.soft_cancel());
}

#[test]
fn disabled_tool_loop_ends_the_turn_and_is_consumed() {
    let mut m = SessionPhaseMachine::new();
    m.on_dispatch_message().unwrap();
    m.set_tool_loop_disabled();
    assert!(m.is_tool_loop_disabled());
    assert_eq!(m.on_tool_batch_completed().unwrap().new_phase, PhaseKind::Idle);
    assert!(!m.is_tool_loop_disabled());
}

#[test]
fn cancel_returns_to_idle_from_any_busy_phase() {
    let mut m = SessionPhaseMachine::new();
    assert_eq!(m.cancel(), Err(TransitionError { from: PhaseKind::Idle }));
    m.on_dispatch_message().unwrap();
    assert_eq!(
        m.cancel(),
        Ok(TransitionOutcome { old_phase: PhaseKind::Sending, new_phase: PhaseKind::Idle })
    );
    m.on_dispatch_message().unwrap();
    m.on_first_token().unwrap();
    m.set_streaming_entry_index(4);
    assert_eq!(m.cancel().unwrap().old_phase, PhaseKind::Streaming);
    assert_eq!(m.streaming_entry_index(), None);
}

#[test]
fn validate_reports_the_current_phase() {
    let m = SessionPhaseMachine::new();
    assert_eq!(m.validate(PhaseKind::Idle), Ok(PhaseKind::Idle));
    assert_eq!(m.validate(PhaseKind::Sending), Err(TransitionError { from: PhaseKind::Idle }));
}

#[test]
fn streaming_indices_are_ignored_outside_streaming() {
    let mut m = SessionPhaseMachine::new();
    m.set_streaming_entry_index(3);
    m.track_tool_call(0, 3);
    assert_eq!(m.streaming_entry_index(), None);
    assert_eq!(m.streaming_tool_call_index(0), None);
}

#[test]
fn insertion_shifts_indices_at_or_after_the_point() {
    let mut m = SessionPhaseMachine::new();
    m.on_dispatch_message().unwrap();
    m.on_first_token().unwrap();
    m.set_streaming_entry_index(5);
    m.set_streaming_thinking_entry_index(2);
    m.track_tool_call(7, 3);
    m.track_tool_result("call", 9);
    m.shift_streaming_indices_for_insert_at(3);
    assert_eq!(m.streaming_entry_index(), Some(6));
    assert_eq!(m.streaming_thinking_entry_index(), Some(2));
    assert_eq!(m.streaming_tool_call_index(7), Some(4));
    assert_eq!(m.streaming_tool_result_index("call"), Some(10));
    assert!(m.is_tool_call_at_history_index(4));
    assert!(!m.is_tool_call_at_history_index(3));
}

#[test]
fn tracking_a_key_again_replaces_it() {
    let mut m = SessionPhaseMachine::new();
    m.on_dispatch_message().unwrap();
    m.on_first_token().unwrap();
    m.track_tool_call(1, 10);
    m.track_tool_call(2, 20);
    m.track_tool_call(1, 11);
    assert_eq!(m.streaming_tool_call_index(1), Some(11));
    assert_eq!(m.streaming_tool_call_index(2), Some(20));
    m.track_tool_result("a", 1);
    m.track_tool_result("a", 2);
    assert_eq!(m.take_tool_result_index("a"), Some(2));
    assert_eq!(m.take_tool_result_index("a"), None);
}

#[test]
fn phase_kind_parses_case_insensitively() {
    assert_eq!(PhaseKind::parse("Streaming").ok(), Some(PhaseKind::Streaming));
    assert_eq!(PhaseKind::parse("IDLE").ok(), Some(PhaseKind::Idle));
    assert_eq!(PhaseKind::parse("sending").ok(), Some(PhaseKind::Sending));
    let err = PhaseKind::parse("Working").err().expect("unknown kind");
    assert_eq!(err.0, "Working");
}

#[test]
fn phase_kind_of_phase() {
    assert_eq!(Phase::idle().kind(), PhaseKind::Idle);
    let mut p = Phase::idle();
    assert!(p.as_sending_mut().is_none());
}
