use jinn_domain::entry::{ChangeSource, ChatEntry, ChatEntryId, ContextOverride, PinPosition};
use jinn_domain::session::{ChatSessionState, HistoryMutation};

fn worker() -> ChangeSource {
    ChangeSource::Worker { name: "edit_read".to_owned() }
}

fn set_override(entry_id: ChatEntryId, value: ContextOverride) -> HistoryMutation {
    HistoryMutation::SetContextOverride { entry_id, value, source: worker() }
}

#[test]
fn find_entry_index_by_id_returns_index_for_existing_entry() {
    let mut session = ChatSessionState::new();
    session.push_entry(ChatEntry::user(ChatEntryId(1), "first"));
    let second = ChatEntry::user(ChatEntryId(2), "second");
    let second_id = second.id;
    session.push_entry(second);
    let idx = session.find_entry_index_by_id(&second_id);
    assert_eq!(idx, Some(1));
}

#[test]
fn find_entry_index_by_id_returns_none_for_nonexistent_id() {
    let mut session = ChatSessionState::new();
    session.push_entry(ChatEntry::user(ChatEntryId(1), "hello"));
    let fake_id = ChatEntryId(999);
    let idx = session.find_entry_index_by_id(&fake_id);
    assert!(idx.is_none());
}

#[test]
fn queue_mutations_appends_nonempty_batch() {
    let mut session = ChatSessionState::new();
    session.push_entry(ChatEntry::user(ChatEntryId(1), "hello"));
    let entry_id = session.history()[0].id;
    let batch = vec![set_override(entry_id, ContextOverride::ForcedExclude)];
    session.queue_mutations(batch);
    assert_eq!(session.drain_pending_mutations().len(), 1);
}

#[test]
fn queue_mutations_ignores_empty_batch() {
    let mut session = ChatSessionState::new();
    session.queue_mutations(vec![]);
    assert!(session.drain_pending_mutations().is_empty());
}

#[test]
fn drain_pending_mutations_empties_the_queue() {
    let mut session = ChatSessionState::new();
    session.push_entry(ChatEntry::user(ChatEntryId(1), "hello"));
    let entry_id = session.history()[0].id;
    session.queue_mutations(vec![set_override(entry_id, ContextOverride::ForcedExclude)]);
    let drained = session.drain_pending_mutations();
    assert_eq!(drained.len(), 1);
    assert!(session.drain_pending_mutations().is_empty());
}

#[test]
fn apply_mutations_sets_context_override_by_id() {
    let mut session = ChatSessionState::new();
    session.push_entry(ChatEntry::user(ChatEntryId(1), "hello"));
    let entry_id = session.history()[0].id;
    session.apply_mutations(vec![set_override(entry_id, ContextOverride::ForcedExclude)]);
    assert_eq!(session.history()[0].context_override, ContextOverride::ForcedExclude);
}

#[test]
fn apply_mutations_skips_set_context_override_for_nonexistent_id() {
    let mut session = ChatSessionState::new();
    session.push_entry(ChatEntry::user(ChatEntryId(1), "hello"));
    session.apply_mutations(vec![set_override(ChatEntryId(999), ContextOverride::ForcedExclude)]);
    assert_eq!(session.history()[0].context_override, ContextOverride::Default);
}

#[test]
fn apply_mutations_inserts_entry_after_specified_id() {
    let mut session = ChatSessionState::new();
    session.push_entry(ChatEntry::user(ChatEntryId(1), "first"));
    session.push_entry(ChatEntry::user(ChatEntryId(2), "third"));
    let first_id = session.history()[0].id;
    let inserted = ChatEntry::system(ChatEntryId(3), "second");
    let inserted_id = inserted.id;
    session.apply_mutations(vec![HistoryMutation::InsertEntry {
        after_entry_id: Some(first_id),
        entry: inserted,
    }]);
    assert_eq!(session.history().len(), 3);
    assert_eq!(session.history()[1].id, inserted_id);
}

#[test]
fn apply_mutations_inserts_at_beginning_when_after_id_is_none() {
    let mut session = ChatSessionState::new();
    session.push_entry(ChatEntry::user(ChatEntryId(1), "second"));
    let inserted = ChatEntry::system(ChatEntryId(2), "first");
    let inserted_id = inserted.id;
    session.apply_mutations(vec![HistoryMutation::InsertEntry { after_entry_id: None, entry: inserted }]);
    assert_eq!(session.history().len(), 2);
    assert_eq!(session.history()[0].id, inserted_id);
}

#[test]
fn apply_mutations_skips_insert_for_nonexistent_after_id() {
    let mut session = ChatSessionState::new();
    session.push_entry(ChatEntry::user(ChatEntryId(1), "hello"));
    session.apply_mutations(vec![HistoryMutation::InsertEntry {
        after_entry_id: Some(ChatEntryId(999)),
        entry: ChatEntry::system(ChatEntryId(2), "ghost"),
    }]);
    assert_eq!(session.history().len(), 1);
}

fn streaming_session_with_two_entries() -> (ChatSessionState, ChatEntryId) {
    let mut session = ChatSessionState::new();
    session.push_entry(ChatEntry::user(ChatEntryId(1), "first"));
    session.push_entry(ChatEntry::user(ChatEntryId(2), "second"));
    let first_id = session.history()[0].id;
    session.begin_sending();
    session.begin_streaming();
    (session, first_id)
}

#[test]
fn insert_entry_shifts_streaming_entry_index() {
    let (mut session, first_id) = streaming_session_with_two_entries();
    session.core.ephemeral.machine.set_streaming_entry_index(1);
    session.apply_mutations(vec![HistoryMutation::InsertEntry {
        after_entry_id: Some(first_id),
        entry: ChatEntry::system(ChatEntryId(3), "inserted"),
    }]);
    assert_eq!(session.core.ephemeral.machine.streaming_entry_index(), Some(2));
}

#[test]
fn insert_entry_shifts_streaming_thinking_entry_index() {
    let (mut session, first_id) = streaming_session_with_two_entries();
    session.core.ephemeral.machine.set_streaming_thinking_entry_index(1);
    session.apply_mutations(vec![HistoryMutation::InsertEntry {
        after_entry_id: Some(first_id),
        entry: ChatEntry::system(ChatEntryId(3), "inserted"),
    }]);
    assert_eq!(session.core.ephemeral.machine.streaming_thinking_entry_index(), Some(2));
}

#[test]
fn insert_entry_shifts_streaming_tool_call_indices() {
    let (mut session, first_id) = streaming_session_with_two_entries();
    session.core.ephemeral.machine.track_tool_call(0, 1);
    session.apply_mutations(vec![HistoryMutation::InsertEntry {
        after_entry_id: Some(first_id),
        entry: ChatEntry::system(ChatEntryId(3), "inserted"),
    }]);
    assert_eq!(session.core.ephemeral.machine.streaming_tool_call_index(0), Some(2));
}

#[test]
fn insert_entry_shifts_streaming_tool_result_indices() {
    let (mut session, first_id) = streaming_session_with_two_entries();
    session.core.ephemeral.machine.track_tool_result("call_123", 1);
    session.apply_mutations(vec![HistoryMutation::InsertEntry {
        after_entry_id: Some(first_id),
        entry: ChatEntry::system(ChatEntryId(3), "inserted"),
    }]);
    assert_eq!(session.core.ephemeral.machine.streaming_tool_result_index("call_123"), Some(2));
}

#[test]
fn multiple_insert_entries_in_one_batch_produce_correct_ordering() {
    let mut session = ChatSessionState::new();
    session.push_entry(ChatEntry::user(ChatEntryId(1), "anchor"));
    let anchor_id = session.history()[0].id;
    let first_insert = ChatEntry::system(ChatEntryId(2), "A");
    let first_insert_id = first_insert.id;
    let second_insert = ChatEntry::system(ChatEntryId(3), "B");
    let second_insert_id = second_insert.id;
    session.apply_mutations(vec![
        HistoryMutation::InsertEntry { after_entry_id: Some(anchor_id), entry: first_insert },
        HistoryMutation::InsertEntry { after_entry_id: Some(anchor_id), entry: second_insert },
    ]);
    assert_eq!(session.history().len(), 3);
    assert_eq!(session.history()[1].id, second_insert_id);
    assert_eq!(session.history()[2].id, first_insert_id);
}

#[test]
fn apply_mutations_pins_entry_by_id() {
    let mut session = ChatSessionState::new();
    session.push_entry(ChatEntry::user(ChatEntryId(1), "hello"));
    let entry_id = session.history()[0].id;
    session.apply_mutations(vec![HistoryMutation::PinEntry { entry_id, position: PinPosition::Top }]);
    assert_eq!(session.history()[0].pin_position, Some(PinPosition::Top));
}

#[test]
fn apply_mutations_skips_pin_for_nonexistent_id() {
    let mut session = ChatSessionState::new();
    session.push_entry(ChatEntry::user(ChatEntryId(1), "hello"));
    session.apply_mutations(vec![HistoryMutation::PinEntry {
        entry_id: ChatEntryId(999),
        position: PinPosition::Top,
    }]);
    assert!(session.history()[0].pin_position.is_none());
}

#[test]
fn apply_mutations_unpins_entry_by_id() {
    let mut session = ChatSessionState::new();
    session.push_entry(ChatEntry::user(ChatEntryId(1), "hello").with_pin(PinPosition::Top));
    let entry_id = session.history()[0].id;
    session.apply_mutations(vec![HistoryMutation::UnpinEntry { entry_id }]);
    assert!(session.history()[0].pin_position.is_none());
}

#[test]
fn apply_mutations_on_empty_history_is_noop() {
    let mut session = ChatSessionState::new();
    session.apply_mutations(vec![
        set_override(ChatEntryId(900), ContextOverride::ForcedExclude),
        HistoryMutation::InsertEntry {
            after_entry_id: Some(ChatEntryId(901)),
            entry: ChatEntry::system(ChatEntryId(1), "ghost"),
        },
        HistoryMutation::PinEntry { entry_id: ChatEntryId(902), position: PinPosition::Top },
        HistoryMutation::UnpinEntry { entry_id: ChatEntryId(903) },
    ]);
    assert!(session.history().is_empty());
}

#[test]
fn drain_and_apply_applies_all_batches_in_order() {
    let mut session = ChatSessionState::new();
    session.push_entry(ChatEntry::user(ChatEntryId(1), "first"));
    session.push_entry(ChatEntry::user(ChatEntryId(2), "second"));
    let first_id = session.history()[0].id;
    let second_id = session.history()[1].id;
    session.queue_mutations(vec![set_override(first_id, ContextOverride::ForcedExclude)]);
    session.queue_mutations(vec![set_override(second_id, ContextOverride::ForcedExclude)]);
    let (count, changed) = session.drain_and_apply_pending_mutations();
    assert_eq!(count, 2);
    assert_eq!(changed, vec![first_id, second_id]);
    assert_eq!(session.history()[0].context_override, ContextOverride::ForcedExclude);
    assert_eq!(session.history()[1].context_override, ContextOverride::ForcedExclude);
    assert!(session.drain_pending_mutations().is_empty());
}

#[test]
fn drain_and_apply_returns_zero_when_queue_empty() {
    let mut session = ChatSessionState::new();
    let (count, changed) = session.drain_and_apply_pending_mutations();
    assert_eq!(count, 0);
    assert!(changed.is_empty());
}

fn pinned_to(position: PinPosition) -> Option<PinPosition> {
    let mut session = ChatSessionState::new();
    session.push_entry(ChatEntry::user(ChatEntryId(1), "hello"));
    let entry_id = session.history()[0].id;
    session.apply_mutations(vec![HistoryMutation::PinEntry { entry_id, position }]);
    session.history()[0].pin_position
}

#[test]
fn pin_entry_top_sets_position() {
    assert_eq!(pinned_to(PinPosition::Top), Some(PinPosition::Top));
}

#[test]
fn pin_entry_bottom_sets_position() {
    assert_eq!(pinned_to(PinPosition::Bottom), Some(PinPosition::Bottom));
}

#[test]
fn pin_entry_relative_sets_position() {
    assert_eq!(pinned_to(PinPosition::Relative), Some(PinPosition::Relative));
}

#[test]
fn pin_entry_can_change_position() {
    let mut session = ChatSessionState::new();
    session.push_entry(ChatEntry::user(ChatEntryId(1), "hello"));
    let entry_id = session.history()[0].id;
    session.apply_mutations(vec![HistoryMutation::PinEntry { entry_id, position: PinPosition::Top }]);
    assert_eq!(session.history()[0].pin_position, Some(PinPosition::Top));
    session.apply_mutations(vec![HistoryMutation::PinEntry { entry_id, position: PinPosition::Bottom }]);
    assert_eq!(session.history()[0].pin_position, Some(PinPosition::Bottom));
}

#[test]
fn set_context_override_forced_include() {
    let mut session = ChatSessionState::new();
    session.push_entry(ChatEntry::user(ChatEntryId(1), "hello"));
    let entry_id = session.history()[0].id;
    session.apply_mutations(vec![set_override(entry_id, ContextOverride::ForcedInclude)]);
    assert_eq!(session.history()[0].context_override, ContextOverride::ForcedInclude);
}

#[test]
fn set_context_override_default_resets_to_default() {
    let mut session = ChatSessionState::new();
    session.push_entry(ChatEntry::user(ChatEntryId(1), "hello"));
    let entry_id = session.history()[0].id;
    session.apply_mutations(vec![set_override(entry_id, ContextOverride::ForcedExclude)]);
    assert_eq!(session.history()[0].context_override, ContextOverride::ForcedExclude);
    session.apply_mutations(vec![set_override(entry_id, ContextOverride::Default)]);
    assert_eq!(session.history()[0].context_override, ContextOverride::Default);
}

#[test]
fn unpin_entry_removes_pin_from_pinned_entry() {
    let mut session = ChatSessionState::new();
    session.push_entry(ChatEntry::user(ChatEntryId(1), "hello"));
    let entry_id = session.history()[0].id;
    session.apply_mutations(vec![HistoryMutation::PinEntry { entry_id, position: PinPosition::Top }]);
    assert!(session.history()[0].pin_position.is_some());
    session.apply_mutations(vec![HistoryMutation::UnpinEntry { entry_id }]);
    assert!(session.history()[0].pin_position.is_none());
}

#[test]
fn unpin_entry_on_unpinned_entry_is_noop() {
    let mut session = ChatSessionState::new();
    session.push_entry(ChatEntry::user(ChatEntryId(1), "hello"));
    let entry_id = session.history()[0].id;
    assert!(session.history()[0].pin_position.is_none());
    session.apply_mutations(vec![HistoryMutation::UnpinEntry { entry_id }]);
    assert!(session.history()[0].pin_position.is_none());
}

#[test]
fn worker_cannot_exclude_a_forced_include() {
    let mut session = ChatSessionState::new();
    session.push_entry(ChatEntry::user(ChatEntryId(1), "keep me"));
    let entry_id = session.history()[0].id;
    session.apply_mutations(vec![set_override(entry_id, ContextOverride::ForcedInclude)]);
    let changed = session.apply_mutations(vec![set_override(entry_id, ContextOverride::ForcedExclude)]);
    assert!(changed.is_empty());
    assert_eq!(session.history()[0].context_override, ContextOverride::ForcedInclude);
}

#[test]
fn worker_cannot_reinclude_a_user_exclusion() {
    let mut session = ChatSessionState::new();
    session.push_entry(ChatEntry::user(ChatEntryId(1), "user dropped this"));
    let entry_id = session.history()[0].id;
    session.apply_mutations(vec![HistoryMutation::SetContextOverride {
        entry_id,
        value: ContextOverride::ForcedExclude,
        source: ChangeSource::User,
    }]);
    let changed = session.apply_mutations(vec![set_override(entry_id, ContextOverride::ForcedInclude)]);
    assert!(changed.is_empty());
    assert_eq!(session.history()[0].context_override, ContextOverride::ForcedExclude);
}

#[test]
fn apply_mutations_reports_only_changed_overrides() {
    let mut session = ChatSessionState::new();
    session.push_entry(ChatEntry::user(ChatEntryId(1), "a"));
    session.push_entry(ChatEntry::user(ChatEntryId(2), "b"));
    let changed = session.apply_mutations(vec![
        set_override(ChatEntryId(1), ContextOverride::ForcedExclude),
        set_override(ChatEntryId(1), ContextOverride::ForcedExclude),
        set_override(ChatEntryId(2), ContextOverride::Default),
    ]);
    assert_eq!(changed, vec![ChatEntryId(1)]);
}
