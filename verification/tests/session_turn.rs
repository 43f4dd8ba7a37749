use jinn_domain::entry::{ChangeSource, ChatEntry, ChatEntryId, ChatEntryKind, ContextOverride};
use jinn_domain::phase::PhaseKind;
use jinn_domain::profile::ModelSelection;
use jinn_domain::session::{ChatSessionState, HistoryMutation, QueueItem};
use jinn_domain::session_turn::{dispatch_target, local_output_count, output_token_count, EnqueueAction, StreamCompletedReason};

fn ts() -> jiff::Timestamp {
    jiff::Timestamp::from_second(1_700_000_000).unwrap()
}

fn complete(s: &mut ChatSessionState, reason: StreamCompletedReason) -> Vec<ChatEntryId> {
    s.complete_stream(reason, None, None, None, ts()).changed
}

fn exclude(entry_id: ChatEntryId) -> HistoryMutation {
    HistoryMutation::SetContextOverride {
        entry_id,
        value: ContextOverride::ForcedExclude,
        source: ChangeSource::Internal { label: "test".to_owned() },
    }
}

fn queued_user(id: u64, text: &str) -> QueueItem {
    QueueItem::UserMessage(ChatEntry::user(ChatEntryId(id), text))
}

#[test]
fn on_stream_completed_error_stops_streaming() {
    let mut s = ChatSessionState::new();
    s.begin_streaming();
    let r = s.complete_stream(StreamCompletedReason::Error, None, None, None, ts());
    assert_eq!(r.old_phase, PhaseKind::Streaming);
    assert_ne!(s.phase(), PhaseKind::Streaming);
    assert!(r.should_save);
}

#[test]
fn on_stream_completed_error_reason_drains_queue_to_input_buffer() {
    let mut s = ChatSessionState::new();
    s.begin_streaming();
    s.enqueue(queued_user(100, "queued message"));
    complete(&mut s, StreamCompletedReason::Error);
    assert_eq!(s.queue_len(), 0);
    assert_eq!(s.chat_input().text, "queued message");
}

#[test]
fn on_stream_completed_error_with_multiple_queued_messages_joins_with_newline() {
    let mut s = ChatSessionState::new();
    s.begin_streaming();
    s.enqueue(queued_user(100, "first message"));
    s.enqueue(queued_user(101, "second message"));
    complete(&mut s, StreamCompletedReason::Error);
    assert_eq!(s.queue_len(), 0);
    assert_eq!(s.chat_input().text, "first message\nsecond message");
}

#[test]
fn on_stream_completed_canceled_reason_drains_queue_to_input_buffer() {
    let mut s = ChatSessionState::new();
    s.begin_streaming();
    s.enqueue(queued_user(100, "queued message"));
    complete(&mut s, StreamCompletedReason::Canceled);
    assert_eq!(s.queue_len(), 0);
    assert_eq!(s.chat_input().text, "queued message");
}

#[test]
fn finished_stream_keeps_the_queue_and_the_input() {
    let mut s = ChatSessionState::new();
    s.begin_streaming();
    s.enqueue(queued_user(100, "later"));
    s.chat_input_mut().replace_all("draft".to_owned());
    complete(&mut s, StreamCompletedReason::Finished);
    assert_eq!(s.queue_len(), 1);
    assert_eq!(s.chat_input().text, "draft");
}

#[test]
fn a_queue_of_tool_continuations_leaves_the_input_alone() {
    let mut s = ChatSessionState::new();
    s.begin_streaming();
    s.enqueue(QueueItem::ToolContinuation);
    s.chat_input_mut().replace_all("draft".to_owned());
    complete(&mut s, StreamCompletedReason::Error);
    assert_eq!(s.queue_len(), 0);
    assert_eq!(s.chat_input().text, "draft");
}

#[test]
fn on_stream_completed_canceled_appends_a_cancelled_error_entry() {
    let mut s = ChatSessionState::new();
    s.push_entry(ChatEntry::user(ChatEntryId(1), "hello"));
    s.begin_streaming();
    complete(&mut s, StreamCompletedReason::Canceled);
    let last = s.history().last().unwrap();
    assert!(matches!(&last.kind, ChatEntryKind::Error(t) if t == "Cancelled"));
    assert_eq!(s.phase(), PhaseKind::Idle);
}

#[test]
fn on_stream_completed_canceled_force_excludes_dangling_tool_calls() {
    let mut s = ChatSessionState::new();
    s.push_entry(ChatEntry::user(ChatEntryId(1), "run it"));
    s.push_entry(ChatEntry::assistant(ChatEntryId(2), ""));
    s.push_entry(ChatEntry::tool_call(ChatEntryId(3), "tc-1", "bash", r#"{"command":"ls"}"#));
    s.begin_streaming();
    let changed = complete(&mut s, StreamCompletedReason::Canceled);
    let history = s.history();
    assert_eq!(history[0].context_override(), ContextOverride::Default);
    assert_eq!(history[1].context_override(), ContextOverride::ForcedExclude);
    assert_eq!(history[2].context_override(), ContextOverride::ForcedExclude);
    assert_eq!(history[3].context_override(), ContextOverride::Default);
    assert_eq!(changed, vec![ChatEntryId(3), ChatEntryId(2)]);
}

#[test]
fn on_stream_completed_tool_use_preserves_assistant_entry() {
    let mut s = ChatSessionState::new();
    s.push_entry(ChatEntry::user(ChatEntryId(1), "do something"));
    s.begin_streaming();
    s.accept_stream_token("I will help", false, ts()).unwrap();
    let r = s.complete_stream(StreamCompletedReason::ToolUse, None, None, None, ts());
    let has_assistant =
        s.history().iter().any(|e| matches!(&e.kind, ChatEntryKind::Assistant(t) if t == "I will help"));
    assert!(has_assistant);
    assert_eq!(s.phase(), PhaseKind::Sending);
    assert_eq!(r.new_phase, PhaseKind::Sending);
    assert!(!r.should_save);
}

#[test]
fn on_stream_completed_finished_preserves_assistant_entry() {
    let mut s = ChatSessionState::new();
    s.push_entry(ChatEntry::user(ChatEntryId(1), "hello"));
    s.begin_streaming();
    s.accept_stream_token("Hello there", false, ts()).unwrap();
    complete(&mut s, StreamCompletedReason::Finished);
    let assistant = s.history().iter().find(|e| matches!(&e.kind, ChatEntryKind::Assistant(_))).unwrap();
    assert!(matches!(&assistant.kind, ChatEntryKind::Assistant(t) if t == "Hello there"));
    assert!(assistant.timing.finished_at.is_some());
    assert_eq!(s.phase(), PhaseKind::Idle);
}

#[test]
fn on_stream_completed_finished_applies_pending_mutations() {
    let mut s = ChatSessionState::new();
    s.push_entry(ChatEntry::user(ChatEntryId(1), "hello"));
    s.push_entry(ChatEntry::assistant(ChatEntryId(2), "response"));
    s.begin_streaming();
    s.queue_mutations(vec![exclude(ChatEntryId(2))]);
    let changed = complete(&mut s, StreamCompletedReason::Finished);
    let assistant = s.history().iter().find(|e| e.id == ChatEntryId(2)).unwrap();
    assert_eq!(assistant.context_override(), ContextOverride::ForcedExclude);
    assert_eq!(changed, vec![ChatEntryId(2)]);
}

#[test]
fn on_stream_completed_error_applies_pending_mutations() {
    let mut s = ChatSessionState::new();
    s.push_entry(ChatEntry::user(ChatEntryId(1), "hello"));
    s.push_entry(ChatEntry::assistant(ChatEntryId(2), "partial"));
    s.begin_streaming();
    s.queue_mutations(vec![exclude(ChatEntryId(2))]);
    complete(&mut s, StreamCompletedReason::Error);
    let assistant = s.history().iter().find(|e| e.id == ChatEntryId(2)).unwrap();
    assert_eq!(assistant.context_override(), ContextOverride::ForcedExclude);
}

#[test]
fn on_stream_completed_tool_use_does_not_apply_mutations() {
    let mut s = ChatSessionState::new();
    s.push_entry(ChatEntry::user(ChatEntryId(1), "hello"));
    s.push_entry(ChatEntry::assistant(ChatEntryId(2), "checking"));
    s.begin_streaming();
    s.queue_mutations(vec![exclude(ChatEntryId(2))]);
    let changed = complete(&mut s, StreamCompletedReason::ToolUse);
    let assistant = s.history().iter().find(|e| e.id == ChatEntryId(2)).unwrap();
    assert_eq!(assistant.context_override(), ContextOverride::Default);
    assert!(changed.is_empty());
}

#[test]
fn on_stream_completed_does_not_count_tokens_on_error() {
    let mut s = ChatSessionState::new();
    s.record_dispatch(100, None, ts());
    s.complete_stream(StreamCompletedReason::Error, Some(50), None, None, ts());
    assert_eq!(s.token_ledger()[0].tokens_received, 0);
}

#[test]
fn finished_stream_completes_the_last_ledger_record() {
    let mut s = ChatSessionState::new();
    s.record_dispatch(100, None, ts());
    s.complete_stream(StreamCompletedReason::Finished, Some(42), Some(7), Some("m-1".to_owned()), ts());
    let rec = &s.token_ledger()[0];
    assert_eq!(rec.tokens_sent, 100);
    assert_eq!(rec.tokens_received, 42);
    assert_eq!(rec.cost_bits, Some(7));
    assert_eq!(rec.model_used.as_deref(), Some("m-1"));
}

#[test]
fn finished_stream_without_a_ledger_record_records_nothing() {
    let mut s = ChatSessionState::new();
    s.begin_streaming();
    s.complete_stream(StreamCompletedReason::Finished, Some(42), None, None, ts());
    assert!(s.token_ledger().is_empty());
}

#[test]
fn on_stream_completed_provider_tokens_used_directly() {
    assert_eq!(output_token_count(None, Some(30)), Some(30));
    assert_eq!(output_token_count(None, None), None);
}

#[test]
fn on_stream_completed_takes_max_when_provider_undercounts() {
    assert_eq!(output_token_count(Some(12), Some(5)), Some(12));
}

#[test]
fn on_stream_completed_takes_max_when_provider_overcounts() {
    assert_eq!(output_token_count(Some(5), Some(12)), Some(12));
}

#[test]
fn on_stream_completed_uses_local_count_when_no_provider_report() {
    assert_eq!(output_token_count(Some(9), None), Some(9));
}

#[test]
fn on_stream_token_appends_text_to_assistant_entry() {
    let mut s = ChatSessionState::new();
    s.push_entry(ChatEntry::user(ChatEntryId(1), "hi"));
    s.begin_streaming();
    s.accept_stream_token("Hel", false, ts()).unwrap();
    s.accept_stream_token("lo", false, ts()).unwrap();
    assert!(matches!(&s.history()[1].kind, ChatEntryKind::Assistant(t) if t == "Hello"));
    assert_eq!(s.phase(), PhaseKind::Streaming);
}

#[test]
fn on_stream_token_corrects_sending_phase_to_streaming() {
    let mut s = ChatSessionState::new();
    s.begin_sending();
    s.accept_stream_token("x", false, ts()).unwrap();
    assert_eq!(s.phase(), PhaseKind::Streaming);
}

#[test]
fn thinking_entry_gets_dispatched_at_from_stream_token() {
    let mut s = ChatSessionState::new();
    s.push_entry(ChatEntry::user(ChatEntryId(1), "hi"));
    s.begin_streaming();
    s.accept_stream_token("hmm", true, ts()).unwrap();
    s.accept_stream_token(" ok", true, ts()).unwrap();
    let thinking = &s.history()[1];
    assert!(matches!(&thinking.kind, ChatEntryKind::Thinking(t) if t == "hmm ok"));
    assert_eq!(thinking.timing.dispatched_at, Some(ts()));
}

#[test]
fn stream_token_while_idle_is_refused() {
    let mut s = ChatSessionState::new();
    assert!(s.accept_stream_token("x", false, ts()).is_err());
    assert!(s.history().is_empty());
}

#[test]
fn idle_user_message_is_dispatched_and_titles_the_session() {
    let mut s = ChatSessionState::new();
    let action = s.accept_user_message(ChatEntry::user(ChatEntryId(1), "Fix the bug\r\nin main"));
    assert_eq!(action, EnqueueAction::DispatchDirectly);
    assert_eq!(s.history().len(), 1);
    assert_eq!(s.phase(), PhaseKind::Sending);
    assert_eq!(s.core.title.as_deref(), Some("Fix the bug"));
}

#[test]
fn a_titled_session_keeps_its_title() {
    let mut s = ChatSessionState::new();
    s.core.title = Some("Kept".to_owned());
    s.accept_user_message(ChatEntry::user(ChatEntryId(1), "other"));
    assert_eq!(s.core.title.as_deref(), Some("Kept"));
}

#[test]
fn busy_user_message_is_queued() {
    let mut s = ChatSessionState::new();
    s.begin_streaming();
    let action = s.accept_user_message(ChatEntry::user(ChatEntryId(1), "later"));
    assert_eq!(action, EnqueueAction::Queued);
    assert!(s.history().is_empty());
    assert_eq!(s.queue_len(), 1);
}

#[test]
fn record_dispatch_starts_streaming_and_opens_a_ledger_record() {
    let mut s = ChatSessionState::new();
    s.begin_sending();
    let (before, after) = s.record_dispatch(250, Some("m".to_owned()), ts());
    assert_eq!(before, PhaseKind::Sending);
    assert_eq!(after, PhaseKind::Streaming);
    assert_eq!(s.token_ledger().len(), 1);
    assert_eq!(s.token_ledger()[0].tokens_sent, 250);
    assert_eq!(s.token_ledger()[0].tokens_received, 0);
}

#[test]
fn idle_resume_appends_a_marker_and_sends() {
    let mut s = ChatSessionState::new();
    let r = s.accept_resume();
    assert_eq!(r, Some((PhaseKind::Idle, PhaseKind::Sending)));
    assert!(matches!(&s.history()[0].kind, ChatEntryKind::System(t) if t == "\u{21bb} session resumed"));
}

#[test]
fn busy_resume_is_ignored() {
    let mut s = ChatSessionState::new();
    s.begin_streaming();
    assert_eq!(s.accept_resume(), None);
    assert!(s.history().is_empty());
}

#[test]
fn submitted_mutations_apply_at_once_when_idle() {
    let mut s = ChatSessionState::new();
    s.push_entry(ChatEntry::user(ChatEntryId(1), "hello"));
    let changed = s.submit_mutations(vec![exclude(ChatEntryId(1))]);
    assert_eq!(changed, vec![ChatEntryId(1)]);
    assert_eq!(s.history()[0].context_override(), ContextOverride::ForcedExclude);
}

#[test]
fn submitted_mutations_wait_while_busy() {
    let mut s = ChatSessionState::new();
    s.push_entry(ChatEntry::user(ChatEntryId(1), "hello"));
    s.begin_streaming();
    let changed = s.submit_mutations(vec![exclude(ChatEntryId(1))]);
    assert!(changed.is_empty());
    assert_eq!(s.history()[0].context_override(), ContextOverride::Default);
    complete(&mut s, StreamCompletedReason::Finished);
    assert_eq!(s.history()[0].context_override(), ContextOverride::ForcedExclude);
}

#[test]
fn an_empty_mutation_batch_changes_nothing() {
    let mut s = ChatSessionState::new();
    assert!(s.submit_mutations(Vec::new()).is_empty());
}

#[test]
fn handle_enqueue_resume_turn_drains_steering_buffer_before_assembly() {
    let mut s = ChatSessionState::new();
    s.steering_buffer_mut().push_fragment("stay at the foo part".to_owned());
    let r = s.accept_resume();
    assert_eq!(r, Some((PhaseKind::Idle, PhaseKind::Sending)));
    assert_eq!(s.history().len(), 2);
    assert!(matches!(&s.history()[0].kind, ChatEntryKind::System(t) if t == "\u{21bb} session resumed"));
    assert!(matches!(&s.history()[1].kind, ChatEntryKind::User { display: t, .. } if t == "stay at the foo part"));
    assert!(s.steering_buffer().fragments.is_empty());
    s.record_dispatch(10, None, ts());
    assert_eq!(s.phase(), PhaseKind::Streaming);
    assert!(s.steering_buffer().fragments.is_empty());
}

#[test]
fn idle_user_message_joins_steering_fragments_after_it() {
    let mut s = ChatSessionState::new();
    s.steering_buffer_mut().push_fragment("a".to_owned());
    s.steering_buffer_mut().push_fragment("b".to_owned());
    let action = s.accept_user_message(ChatEntry::user(ChatEntryId(1), "question"));
    assert_eq!(action, EnqueueAction::DispatchDirectly);
    assert_eq!(s.history().len(), 2);
    assert!(matches!(&s.history()[0].kind, ChatEntryKind::User { display: t, .. } if t == "question"));
    assert!(matches!(&s.history()[1].kind, ChatEntryKind::User { display: t, .. } if t == "a\n\nb"));
    assert!(s.steering_buffer().fragments.is_empty());
}

#[test]
fn busy_user_message_keeps_the_steering_fragments() {
    let mut s = ChatSessionState::new();
    s.begin_streaming();
    s.steering_buffer_mut().push_fragment("a".to_owned());
    s.accept_user_message(ChatEntry::user(ChatEntryId(1), "later"));
    assert_eq!(s.steering_buffer().fragments.len(), 1);
    assert!(s.history().is_empty());
}

#[test]
fn handle_enqueue_resume_turn_idle_dispatches_directly() {
    let mut s = ChatSessionState::new();
    assert!(s.accept_resume().is_some());
    s.record_dispatch(10, None, ts());
    assert_eq!(s.phase(), PhaseKind::Streaming);
    assert_eq!(s.queue_len(), 0);
    let markers = s.history().iter().filter(|e| matches!(e.kind, ChatEntryKind::System(_))).count();
    assert_eq!(markers, 1);
    assert_eq!(s.token_ledger().len(), 1);
}

#[test]
fn local_output_count_sums_content_thinking_and_tool_calls() {
    let calls = vec![(7, 2), (5, 1)];
    assert_eq!(local_output_count(StreamCompletedReason::Finished, Some(10), 3, &calls), Some(28));
    assert_eq!(local_output_count(StreamCompletedReason::ToolUse, Some(0), 0, &vec![]), Some(0));
    assert_eq!(local_output_count(StreamCompletedReason::Finished, None, 3, &calls), None);
    assert_eq!(local_output_count(StreamCompletedReason::Error, Some(10), 3, &calls), None);
    assert_eq!(local_output_count(StreamCompletedReason::Canceled, Some(10), 3, &calls), None);
}

#[test]
fn dispatch_target_names_the_resolved_model_once_a_provider_is_chosen() {
    let none = ModelSelection::no_provider();
    assert_eq!(dispatch_target(&none, "m".to_owned()), (None, None));
    let single = ModelSelection::Single("openai/gpt-4o".to_owned());
    assert_eq!(
        dispatch_target(&single, "openai/gpt-4o".to_owned()),
        (Some("openai/gpt-4o".to_owned()), Some("openai/gpt-4o".to_owned()))
    );
    let alloy = ModelSelection::Alloy("duo".to_owned());
    assert_eq!(dispatch_target(&alloy, "a/b".to_owned()), (Some("a/b".to_owned()), Some("a/b".to_owned())));
}
