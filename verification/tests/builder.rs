use jinn_domain::entry::{ChatEntry, ChatEntryId, PinPosition};
use jinn_domain::phase::PhaseKind;
use jinn_domain::session::ChatSessionState;

#[test]
fn builder_replays_operations_in_order() {
    let s = ChatSessionState::builder()
        .with_user_entry("hello")
        .with_pin(PinPosition::Top)
        .with_entry(ChatEntry::system(ChatEntryId(40), "note"))
        .begin_streaming()
        .build();
    assert_eq!(s.history().len(), 2);
    assert_eq!(s.history()[0].pin_position, Some(PinPosition::Top));
    assert_eq!(s.history()[1].id, ChatEntryId(40));
    assert_eq!(s.phase(), PhaseKind::Streaming);
}

#[test]
fn builder_pin_without_entries_does_nothing() {
    let s = ChatSessionState::builder().with_pin(PinPosition::Top).begin_sending().build();
    assert!(s.history().is_empty());
    assert_eq!(s.phase(), PhaseKind::Sending);
}
