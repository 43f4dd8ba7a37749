use jinn_domain::lifecycle::{default_persist, LifecycleScriptState, SessionState};
use jinn_domain::session::ChatSessionState;

#[test]
fn lifecycle_advances_one_way() {
    let mut s = LifecycleScriptState::initial();
    assert_eq!(s, LifecycleScriptState::NothingRan);
    s.advance_after_teardown();
    assert_eq!(s, LifecycleScriptState::NothingRan);
    s.advance_after_setup();
    assert_eq!(s, LifecycleScriptState::SetupRan);
    s.advance_after_setup();
    assert_eq!(s, LifecycleScriptState::SetupRan);
    s.advance_after_teardown();
    assert_eq!(s, LifecycleScriptState::TeardownRan);
    s.advance_after_setup();
    assert_eq!(s, LifecycleScriptState::TeardownRan);
}

#[test]
fn defaults() {
    assert!(default_persist());
    assert_eq!(SessionState::default_state(), SessionState::Loaded);
}

#[test]
fn session_lifecycle_delegates() {
    let mut session = ChatSessionState::new();
    assert_eq!(session.lifecycle_script_state(), LifecycleScriptState::NothingRan);
    session.advance_lifecycle_after_setup();
    session.advance_lifecycle_after_teardown();
    assert_eq!(session.lifecycle_script_state(), LifecycleScriptState::TeardownRan);
}

#[test]
fn persistable_needs_a_reason() {
    let mut session = ChatSessionState::new();
    assert!(!session.is_persistable());
    session.mark_interacted();
    assert!(session.has_interacted());
    assert!(session.is_persistable());
}
