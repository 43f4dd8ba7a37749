use jinn_domain::entry::{ChatEntry, ChatEntryId, ChatEntryKind, ContextOverride, PinPosition, ToolResultStatus, TruncationMeta};
use jinn_domain::phase::PhaseKind;
use jinn_domain::session::{ChatSessionState, QueueItem, StreamingError};

fn ts() -> jiff::Timestamp {
    jiff::Timestamp::from_second(1_700_000_000).unwrap()
}

fn streaming_session() -> ChatSessionState {
    let mut s = ChatSessionState::new();
    s.push_entry(ChatEntry::user(ChatEntryId(1), "question"));
    s.begin_streaming();
    s
}

fn text_of(e: &ChatEntry) -> String {
    match &e.kind {
        ChatEntryKind::Assistant(t) | ChatEntryKind::Thinking(t) => t.clone(),
        ChatEntryKind::ToolCall { arguments, .. } => arguments.clone(),
        ChatEntryKind::ToolResult { content, .. } => content.clone(),
        _ => String::new(),
    }
}

#[test]
fn begin_streaming_from_idle_passes_through_sending() {
    let mut s = ChatSessionState::new();
    s.begin_streaming();
    assert_eq!(s.phase(), PhaseKind::Streaming);
    s.begin_streaming();
    assert_eq!(s.phase(), PhaseKind::Streaming);
}

#[test]
fn stream_tokens_accumulate_in_a_lazily_created_assistant_entry() {
    let mut s = streaming_session();
    assert_eq!(s.history().len(), 1);
    s.append_stream_token("Hel", ts()).unwrap();
    s.append_stream_token("lo", ts()).unwrap();
    assert_eq!(s.history().len(), 2);
    assert_eq!(text_of(&s.history()[1]), "Hello");
    assert_eq!(s.history()[1].timing.dispatched_at, Some(ts()));
    assert!(s.history()[1].timing.first_token_at.is_some());
}

#[test]
fn stream_token_outside_streaming_is_an_error() {
    let mut s = ChatSessionState::new();
    assert_eq!(s.append_stream_token("x", ts()), Err(StreamingError::NoStreamingEntry));
    assert!(s.history().is_empty());
}

#[test]
fn stream_token_into_non_assistant_entry_is_an_error() {
    let mut s = streaming_session();
    s.core.ephemeral.machine.set_streaming_entry_index(0);
    assert_eq!(s.append_stream_token("x", ts()), Err(StreamingError::NotAssistantEntry));
}

#[test]
fn thinking_goes_before_an_existing_assistant_entry() {
    let mut s = streaming_session();
    s.append_stream_token("answer", ts()).unwrap();
    s.begin_thinking(ts());
    assert_eq!(s.streaming_thinking_entry_index(), Some(1));
    assert_eq!(s.core.ephemeral.machine.streaming_entry_index(), Some(2));
    s.append_thinking_token("hmm").unwrap();
    assert_eq!(text_of(&s.history()[1]), "hmm");
    assert_eq!(text_of(&s.history()[2]), "answer");
}

#[test]
fn thinking_goes_last_without_an_assistant_entry() {
    let mut s = streaming_session();
    s.begin_thinking(ts());
    assert_eq!(s.streaming_thinking_entry_index(), Some(1));
    s.begin_thinking(ts());
    assert_eq!(s.history().len(), 2);
}

#[test]
fn thinking_token_without_thinking_is_an_error() {
    let mut s = streaming_session();
    assert_eq!(s.append_thinking_token("x"), Err(StreamingError::NoThinkingEntry));
}

#[test]
fn finish_streaming_stamps_and_goes_idle() {
    let mut s = streaming_session();
    s.append_stream_token("done", ts()).unwrap();
    s.finish_streaming(false, ts());
    assert_eq!(s.phase(), PhaseKind::Idle);
    assert!(s.history()[1].timing.finished_at.is_some());
}

#[test]
fn finish_streaming_can_preserve_an_empty_assistant_entry() {
    let mut s = streaming_session();
    s.finish_streaming(true, ts());
    assert_eq!(s.history().len(), 2);
    assert!(s.history()[1].is_empty_assistant());
    let mut t = streaming_session();
    t.finish_streaming(false, ts());
    assert_eq!(t.history().len(), 1);
}

#[test]
fn cancel_stream_and_drain_refills_the_input() {
    let mut s = streaming_session();
    s.steering_buffer_mut().push_fragment("steer".to_owned());
    s.enqueue(QueueItem::UserMessage(ChatEntry::user(ChatEntryId(50), "queued")));
    s.enqueue(QueueItem::ToolContinuation);
    s.cancel_stream_and_drain();
    assert_eq!(s.phase(), PhaseKind::Idle);
    assert_eq!(s.chat_input().text, "steer\n\n---\n\nqueued");
    assert_eq!(s.queue_len(), 0);
    assert!(s.steering_buffer().fragments.is_empty());
    assert!(s.history()[1].is_empty_assistant());
}

#[test]
fn cancel_with_nothing_pending_keeps_the_input() {
    let mut s = streaming_session();
    s.chat_input_mut().replace_all("draft".to_owned());
    s.cancel_stream_and_drain();
    assert_eq!(s.chat_input().text, "draft");
}

#[test]
fn tool_call_streams_arguments_and_finalizes() {
    let mut s = streaming_session();
    s.begin_tool_call(0, "call_1", "read", ts());
    assert_eq!(s.history().len(), 3);
    assert!(s.is_tool_call_streaming(&s.history()[2].id.clone()));
    s.append_tool_call_delta(0, "{\"pa").unwrap();
    s.append_tool_call_delta(0, "th\":1}").unwrap();
    assert_eq!(text_of(&s.history()[2]), "{\"path\":1}");
    assert_eq!(s.append_tool_call_delta(5, "x"), Err(StreamingError::NoToolCallIndex { index: 5 }));
    s.finalize_tool_call("call_1", "read", "{\"path\":2}");
    assert_eq!(text_of(&s.history()[2]), "{\"path\":2}");
    assert!(s.history()[2].timing.finished_at.is_some());
}

#[test]
fn finalize_tool_call_without_one_appends_it() {
    let mut s = ChatSessionState::new();
    s.finalize_tool_call("c", "n", "{}");
    assert_eq!(s.history().len(), 1);
    match &s.history()[0].kind {
        ChatEntryKind::ToolCall { id, name, arguments } => {
            assert_eq!(id, "c");
            assert_eq!(name, "n");
            assert_eq!(arguments, "{}");
        },
        _ => panic!("expected a tool call"),
    }
}

#[test]
fn streamed_tool_result_is_completed_in_place() {
    let mut s = streaming_session();
    s.begin_tool_result("call_1", "bash", ts());
    let idx = s.history().len() - 1;
    s.append_tool_result_output("call_1", "partial ");
    assert_eq!(text_of(&s.history()[idx]), "partial ");
    s.finalize_tool_result("call_1", "bash", "all done", true, None, None, Some(PinPosition::Top));
    assert_eq!(s.history().len(), idx + 1);
    let e = &s.history()[idx];
    assert_eq!(text_of(e), "all done");
    assert_eq!(e.pin_position, Some(PinPosition::Top));
    match &e.kind {
        ChatEntryKind::ToolResult { status, pin_position, .. } => {
            assert_eq!(*status, ToolResultStatus::Success);
            assert_eq!(*pin_position, Some(PinPosition::Top));
        },
        _ => panic!("expected a tool result"),
    }
    assert_eq!(s.core.ephemeral.machine.streaming_tool_result_index("call_1"), None);
}

#[test]
fn tool_result_outside_streaming_is_appended_when_missing() {
    let mut s = ChatSessionState::new();
    s.begin_tool_result("call_9", "bash", ts());
    assert!(s.history().is_empty());
    let meta = TruncationMeta { total_len: 10, kept_len: 4 };
    s.finalize_tool_result("call_9", "bash", "trun", false, None, Some(meta), None);
    assert_eq!(s.history().len(), 1);
    match &s.history()[0].kind {
        ChatEntryKind::ToolResult { status, full_content, truncation, content, .. } => {
            assert_eq!(*status, ToolResultStatus::Failure);
            assert_eq!(full_content.as_deref(), Some(""));
            assert_eq!(*truncation, Some(meta));
            assert_eq!(content, "trun");
        },
        _ => panic!("expected a tool result"),
    }
}

#[test]
fn tool_result_outside_streaming_completes_an_existing_entry() {
    let mut s = ChatSessionState::new();
    s.push_entry(ChatEntry::tool_result(ChatEntryId(1), "call_3", "bash", "", ToolResultStatus::Pending));
    s.finalize_tool_result("call_3", "bash", "ok", true, Some("full".to_owned()), None, None);
    assert_eq!(s.history().len(), 1);
    assert_eq!(text_of(&s.history()[0]), "ok");
}

#[test]
fn dangling_tool_calls_are_swept_out_of_context() {
    let mut s = ChatSessionState::new();
    s.push_entry(ChatEntry::user(ChatEntryId(1), "q"));
    s.push_entry(ChatEntry::assistant(ChatEntryId(2), ""));
    s.push_entry(ChatEntry::tool_call(ChatEntryId(3), "c1", "read", "{}"));
    s.push_entry(ChatEntry::tool_call(ChatEntryId(4), "c2", "read", "{}"));
    s.push_entry(ChatEntry::tool_result(ChatEntryId(5), "c2", "read", "ok", ToolResultStatus::Success));
    let changed = s.force_exclude_dangling_tool_calls();
    assert_eq!(changed, vec![ChatEntryId(3), ChatEntryId(2)]);
    assert_eq!(s.history()[2].context_override, ContextOverride::ForcedExclude);
    assert_eq!(s.history()[1].context_override, ContextOverride::ForcedExclude);
    assert_eq!(s.history()[3].context_override, ContextOverride::Default);
    let logged: Vec<usize> = s.history().iter().map(|e| e.context_history.len()).collect();
    assert!(s.force_exclude_dangling_tool_calls().is_empty());
    let again: Vec<usize> = s.history().iter().map(|e| e.context_history.len()).collect();
    assert_eq!(logged, again);
    assert_eq!(s.history()[2].context_override, ContextOverride::ForcedExclude);
}

#[test]
fn sending_phase_changes() {
    let mut s = ChatSessionState::new();
    s.begin_sending();
    assert_eq!(s.phase(), PhaseKind::Sending);
    s.set_tool_loop_disabled();
    s.finish_sending_via_machine();
    assert_eq!(s.phase(), PhaseKind::Idle);
    assert!(!s.is_tool_loop_disabled());
}
