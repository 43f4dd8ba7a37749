//! Streaming an LLM response into the history: the assistant and thinking
//! entries, phase changes around a stream, and cancel recovery.
use vstd::prelude::*;
use vstd::string::*;
use crate::clock::timestamp_now;
use crate::entry::{ChatEntry, ChatEntryId, ChatEntryKind, ContextOverride, EntryTiming};
use crate::machine::SessionPhaseMachine;
use crate::phase::PhaseKind;
use crate::session::{
    cursor_at_last, pushed_rel, ChatSessionState, SessionCore, SessionCoreEphemeral, SessionUi,
    StreamingError,
};
use crate::transition::{is_fresh_streaming, PhaseTransitions};

verus! {

/// A new entry the session created for a stream dispatched at `dispatched_at`:
/// in its default context state, unpinned, with the first token stamped and
/// not finished.
pub open spec fn stream_entry(e: ChatEntry, dispatched_at: jiff::Timestamp) -> bool {
    &&& e.context_override == ContextOverride::Default
    &&& e.context_history@.len() == 0
    &&& e.pin_position is None
    &&& e.timing.dispatched_at == Some(dispatched_at)
    &&& e.timing.first_token_at is Some
    &&& e.timing.finished_at is None
}

/// `t` is `s` with the session-minted entry `e` appended (with smart
/// auto-scroll) and the phase machine replaced by `m`.
pub open spec fn minted_push(s: ChatSessionState, t: ChatSessionState, e: ChatEntry, m: SessionPhaseMachine) -> bool {
    &&& e.id == ChatEntryId(s.core.ephemeral.next_entry_id)
    &&& t.core.ephemeral.machine == m
    &&& t.core.ephemeral.next_entry_id == if s.core.ephemeral.next_entry_id < u64::MAX {
        (s.core.ephemeral.next_entry_id + 1) as u64
    } else {
        s.core.ephemeral.next_entry_id
    }
    &&& t.core.history@ == s.core.history@.push(e)
    &&& t.ui == if cursor_at_last(s.core.history@, s.ui.selected_cursor_id) {
        SessionUi { scroll_offset: None, selected_cursor_id: Some(e.id), ..s.ui }
    } else {
        s.ui
    }
    &&& t.core.ephemeral == (SessionCoreEphemeral {
        machine: t.core.ephemeral.machine,
        next_entry_id: t.core.ephemeral.next_entry_id,
        ..s.core.ephemeral
    })
    &&& t.core == (SessionCore { history: t.core.history, ephemeral: t.core.ephemeral, ..s.core })
}

/// `t` is `s` with only the phase machine replaced.
pub open spec fn machine_only(s: ChatSessionState, t: ChatSessionState) -> bool {
    &&& t.ui == s.ui
    &&& t.core == (SessionCore {
        ephemeral: SessionCoreEphemeral { machine: t.core.ephemeral.machine, ..s.core.ephemeral },
        ..s.core
    })
}

/// `t` is `s` with only the history entry at `i` replaced.
pub open spec fn entry_only(s: ChatSessionState, t: ChatSessionState, i: int) -> bool {
    &&& 0 <= i < s.core.history@.len()
    &&& t.ui == s.ui
    &&& t.core == (SessionCore { history: t.core.history, ..s.core })
    &&& t.core.history@ == s.core.history@.update(i, t.core.history@[i])
}

/// The streaming entry index of a session, when streaming.
pub open spec fn stream_entry_index(s: ChatSessionState) -> Option<usize> {
    match s.core.ephemeral.machine.streaming_view() {
        Some(sp) => sp.streaming_entry_index,
        None => None,
    }
}

/// The thinking entry index of a session, when streaming.
pub open spec fn thinking_entry_index(s: ChatSessionState) -> Option<usize> {
    match s.core.ephemeral.machine.streaming_view() {
        Some(sp) => sp.streaming_thinking_entry_index,
        None => None,
    }
}

/// Whether the assistant entry of the stream is still to be created.
pub open spec fn needs_assistant(s: ChatSessionState) -> bool {
    s.core.ephemeral.machine.kind_view() == PhaseKind::Streaming && stream_entry_index(s) is None
}

/// `t` is `s` after lazily creating the stream's assistant entry: when
/// streaming without one, an empty assistant entry is appended and becomes
/// the streaming entry; otherwise nothing changes.
pub open spec fn assistant_ensured(s: ChatSessionState, t: ChatSessionState, dispatched_at: jiff::Timestamp) -> bool {
    if needs_assistant(s) {
        let e = t.core.history@.last();
        &&& stream_entry(e, dispatched_at)
        &&& e.kind matches ChatEntryKind::Assistant(text) && text@.len() == 0
        &&& minted_push(s, t, e, t.core.ephemeral.machine)
        &&& t.core.ephemeral.machine.kind_view() == s.core.ephemeral.machine.kind_view()
        &&& t.core.ephemeral.machine.tool_loop_disabled_view() == s.core.ephemeral.machine.tool_loop_disabled_view()
        &&& t.core.ephemeral.machine.streaming_view() == Some(crate::phase::StreamingPhase {
            streaming_entry_index: Some(s.core.history@.len() as usize),
            ..s.core.ephemeral.machine.streaming_view().unwrap()
        })
    } else {
        t == s
    }
}

impl ChatSessionState {
    /// Lazily creates the assistant entry of the stream (see `assistant_ensured`).
    pub(crate) fn ensure_assistant_entry(&mut self, dispatched_at: jiff::Timestamp)
        requires
            old(self).core.history@.len() < usize::MAX,
        ensures
            assistant_ensured(*old(self), *final(self), dispatched_at),
    {
        if self.core.ephemeral.machine.streaming_entry_index().is_some()
            || self.core.ephemeral.machine.kind() != PhaseKind::Streaming {
            return;
        }
        let mut timing = EntryTiming::streamed(dispatched_at);
        timing.set_first_token();
        proof {
            reveal_strlit("");
        }
        let entry = ChatEntry { timing, ..ChatEntry::assistant(ChatEntryId(0), "") };
        let index = self.push_new_entry(entry);
        self.core.ephemeral.machine.set_streaming_entry_index(index);
    }

    /// Marks a message as dispatched: `Idle -> Sending`; ignored in any
    /// other phase.
    pub fn begin_sending(&mut self)
        ensures
            machine_only(*old(self), *final(self)),
            final(self).core.ephemeral.machine.tool_loop_disabled_view()
                == old(self).core.ephemeral.machine.tool_loop_disabled_view(),
            if old(self).core.ephemeral.machine.kind_view() == PhaseKind::Idle {
                final(self).core.ephemeral.machine.phase_view() is Sending
            } else {
                final(self).core.ephemeral.machine.phase_view() == old(self).core.ephemeral.machine.phase_view()
            },
    {
        let _ = self.core.ephemeral.machine.on_dispatch_message();
    }

    /// Begins a streaming response: `Sending -> Streaming`, passing through
    /// `Sending` first when `Idle`; ignored when already streaming.
    pub fn begin_streaming(&mut self)
        ensures
            machine_only(*old(self), *final(self)),
            final(self).core.ephemeral.machine.tool_loop_disabled_view()
                == old(self).core.ephemeral.machine.tool_loop_disabled_view(),
            if old(self).core.ephemeral.machine.kind_view() == PhaseKind::Streaming {
                final(self).core.ephemeral.machine.phase_view() == old(self).core.ephemeral.machine.phase_view()
            } else {
                is_fresh_streaming(final(self).core.ephemeral.machine.phase_view())
            },
    {
        if self.core.ephemeral.machine.kind() == PhaseKind::Idle {
            let _ = self.core.ephemeral.machine.on_dispatch_message();
        }
        let _ = self.core.ephemeral.machine.on_first_token();
    }

    /// Completes the sending phase after a tool batch: `Sending -> Idle`
    /// when the tool loop was disabled, else `Sending -> Streaming`. The
    /// disabled flag is consumed either way.
    pub fn finish_sending_via_machine(&mut self)
        ensures
            machine_only(*old(self), *final(self)),
            !final(self).core.ephemeral.machine.tool_loop_disabled_view(),
            if old(self).core.ephemeral.machine.kind_view() == PhaseKind::Sending {
                if old(self).core.ephemeral.machine.tool_loop_disabled_view() {
                    final(self).core.ephemeral.machine.phase_view() is Idle
                } else {
                    is_fresh_streaming(final(self).core.ephemeral.machine.phase_view())
                }
            } else {
                final(self).core.ephemeral.machine.phase_view() == old(self).core.ephemeral.machine.phase_view()
            },
    {
        let _ = self.core.ephemeral.machine.on_tool_batch_completed();
    }

    /// Appends a token to the stream's assistant entry, creating the entry
    /// on the first token. Fails with `NoStreamingEntry` when not streaming,
    /// and with `NotAssistantEntry` when the streaming entry is not an
    /// assistant entry (the entry is then created but left unchanged).
    pub fn append_stream_token(&mut self, token: &str, dispatched_at: jiff::Timestamp) -> (r: Result<(), StreamingError>)
        requires
            old(self).core.history@.len() < usize::MAX,
            stream_entry_index(*old(self)) matches Some(i) ==> i < old(self).core.history@.len(),
        ensures
            stream_token_appended(*old(self), *final(self), token@, dispatched_at, r),

    {
        if self.core.ephemeral.machine.kind() != PhaseKind::Streaming {
            return Err(StreamingError::NoStreamingEntry);
        }
        self.ensure_assistant_entry(dispatched_at);
        let ghost mid = *self;
        let index = match self.core.ephemeral.machine.streaming_entry_index() {
            Some(i) => i,
            None => return Err(StreamingError::NoStreamingEntry),
        };
        let is_assistant = match &self.core.history[index].kind {
            ChatEntryKind::Assistant(_) => true,
            _ => false,
        };
        if !is_assistant {
            return Err(StreamingError::NotAssistantEntry);
        }
        match &mut self.core.history[index].kind {
            ChatEntryKind::Assistant(text) => {
                text.append(token);
            },
            _ => {},
        }
        Ok(())
    }
}

/// `t` and `r` are `s` after appending `token` to the stream's assistant
/// entry (see `append_stream_token`).
pub open spec fn stream_token_appended(s: ChatSessionState, t: ChatSessionState, token: Seq<char>, dispatched_at: jiff::Timestamp, r: Result<(), StreamingError>) -> bool {
    &&& s.core.ephemeral.machine.kind_view() != PhaseKind::Streaming ==> {
        &&& t == s
        &&& r == Err::<(), StreamingError>(StreamingError::NoStreamingEntry)
    }
    &&& s.core.ephemeral.machine.kind_view() == PhaseKind::Streaming ==> exists|mid: ChatSessionState| {
        &&& #[trigger] assistant_ensured(s, mid, dispatched_at)
        &&& stream_entry_index(mid) matches Some(i) && {
            &&& 0 <= i < mid.core.history@.len()
            &&& mid.core.history@[i as int].kind matches ChatEntryKind::Assistant(text) ==> {
                &&& r is Ok
                &&& entry_only(mid, t, i as int)
                &&& t.core.history@[i as int] == ChatEntry {
                    kind: t.core.history@[i as int].kind,
                    ..mid.core.history@[i as int]
                }
                &&& t.core.history@[i as int].kind matches ChatEntryKind::Assistant(t2)
                    && t2@ == text@ + token
            }
            &&& !(mid.core.history@[i as int].kind is Assistant) ==> {
                &&& t == mid
                &&& r == Err::<(), StreamingError>(StreamingError::NotAssistantEntry)
            }
        }
    }
}

/// `t` is `s` after beginning a thinking entry (see `begin_thinking`).
pub open spec fn thinking_begun(s: ChatSessionState, t: ChatSessionState, dispatched_at: jiff::Timestamp) -> bool {
    &&& (s.core.ephemeral.machine.kind_view() != PhaseKind::Streaming
        || thinking_entry_index(s) is Some) ==> t == s
    &&& (s.core.ephemeral.machine.kind_view() == PhaseKind::Streaming
        && thinking_entry_index(s) is None) ==> {
        let sp = s.core.ephemeral.machine.streaming_view().unwrap();
        let fsp = t.core.ephemeral.machine.streaming_view().unwrap();
        let n = s.core.history@.len();
        let at: int = match sp.streaming_entry_index {
            Some(a) => if a < n { a as int } else { n as int },
            None => n as int,
        };
        let e = t.core.history@[at];
        &&& stream_entry(e, dispatched_at)
        &&& e.kind matches ChatEntryKind::Thinking(text) && text@.len() == 0
        &&& e.id == ChatEntryId(s.core.ephemeral.next_entry_id)
        &&& t.core.ephemeral.machine.kind_view() == PhaseKind::Streaming
        &&& t.core.ephemeral.machine.tool_loop_disabled_view()
            == s.core.ephemeral.machine.tool_loop_disabled_view()
        &&& fsp.streaming_thinking_entry_index == Some(at as usize)
        &&& match sp.streaming_entry_index {
            None => {
                &&& minted_push(s, t, e, t.core.ephemeral.machine)
                &&& fsp == crate::phase::StreamingPhase { streaming_thinking_entry_index: Some(at as usize), ..sp }
            },
            Some(a) => {
                &&& t.core.history@ == s.core.history@.insert(at, e)
                &&& crate::machine::shifted_streaming(
                    sp,
                    crate::phase::StreamingPhase { streaming_thinking_entry_index: None, ..fsp },
                    at as usize,
                )
                &&& t.ui == s.ui
                &&& t.core.ephemeral == (SessionCoreEphemeral {
                    machine: t.core.ephemeral.machine,
                    next_entry_id: t.core.ephemeral.next_entry_id,
                    ..s.core.ephemeral
                })
                &&& t.core.ephemeral.next_entry_id
                    == if s.core.ephemeral.next_entry_id < u64::MAX {
                        (s.core.ephemeral.next_entry_id + 1) as u64
                    } else {
                        s.core.ephemeral.next_entry_id
                    }
                &&& t.core == (SessionCore {
                    history: t.core.history,
                    ephemeral: t.core.ephemeral,
                    ..s.core
                })
            },
        }
    }
}

/// `t` and `r` are `s` after appending `token` to the thinking entry (see
/// `append_thinking_token`).
pub open spec fn thinking_token_appended(s: ChatSessionState, t: ChatSessionState, token: Seq<char>, r: Result<(), StreamingError>) -> bool {
    &&& match thinking_entry_index(s) {
        None => t == s && r == Err::<(), StreamingError>(StreamingError::NoThinkingEntry),
        Some(i) => {
            &&& r is Ok
            &&& match s.core.history@[i as int].kind {
                ChatEntryKind::Thinking(text) => {
                    &&& entry_only(s, t, i as int)
                    &&& t.core.history@[i as int] == ChatEntry {
                        kind: t.core.history@[i as int].kind,
                        ..s.core.history@[i as int]
                    }
                    &&& t.core.history@[i as int].kind matches ChatEntryKind::Thinking(t2)
                        && t2@ == text@ + token
                },
                _ => t == s,
            }
        },
    }
}

/// `after` is `before` with its completion time stamped.
pub open spec fn entry_finished(before: ChatEntry, after: ChatEntry) -> bool {
    &&& after.timing.finished_at is Some
    &&& after == ChatEntry {
        timing: EntryTiming { finished_at: after.timing.finished_at, ..before.timing },
        ..before
    }
}

/// `t` is `s` with the stream's assistant entry, if any, stamped finished.
pub open spec fn stream_entry_closed(s: ChatSessionState, t: ChatSessionState) -> bool {
    match stream_entry_index(s) {
        Some(i) => entry_only(s, t, i as int) && entry_finished(s.core.history@[i as int], t.core.history@[i as int]),
        None => t == s,
    }
}

/// `t` is `s` after leaving the stream: the machine goes `Idle` when it was
/// streaming (for a cancel: when it was not idle), the rest as in `s`.
pub open spec fn stream_left(s: ChatSessionState, t: ChatSessionState, hard: bool) -> bool {
    &&& machine_only(s, t)
    &&& t.core.ephemeral.machine.tool_loop_disabled_view() == s.core.ephemeral.machine.tool_loop_disabled_view()
    &&& if (hard && s.core.ephemeral.machine.kind_view() != PhaseKind::Idle)
        || s.core.ephemeral.machine.kind_view() == PhaseKind::Streaming {
        t.core.ephemeral.machine.phase_view() is Idle
    } else {
        t.core.ephemeral.machine.phase_view() == s.core.ephemeral.machine.phase_view()
    }
}

/// `t` is `s` after the stream ended normally (see `finish_streaming`).
pub open spec fn finished_rel(s: ChatSessionState, t: ChatSessionState, preserve_assistant: bool, dispatched_at: jiff::Timestamp) -> bool {
    exists|prepared: ChatSessionState, closed: ChatSessionState| {
        &&& (if preserve_assistant {
            assistant_ensured(s, prepared, dispatched_at)
        } else {
            prepared == s
        })
        &&& #[trigger] stream_entry_closed(prepared, closed)
        &&& stream_left(closed, t, false)
    }
}

/// `t` is `s` after a cancel that keeps the partial text (see `cancel_streaming`).
pub open spec fn canceled_rel(s: ChatSessionState, t: ChatSessionState, dispatched_at: jiff::Timestamp) -> bool {
    exists|prepared: ChatSessionState, closed: ChatSessionState| {
        &&& assistant_ensured(s, prepared, dispatched_at)
        &&& #[trigger] stream_entry_closed(prepared, closed)
        &&& stream_left(closed, t, true)
    }
}

/// The text each queued item gives back on cancel: a queued user message
/// its display text, a tool continuation nothing.
pub open spec fn queue_texts(q: Seq<crate::session::QueueItem>) -> Seq<String>
    decreases q.len(),
{
    if q.len() == 0 {
        Seq::empty()
    } else {
        queue_texts(q.drop_last()) + match q.last() {
            crate::session::QueueItem::UserMessage(e) => match e.kind {
                ChatEntryKind::User { display, .. } => seq![display],
                _ => Seq::empty(),
            },
            crate::session::QueueItem::ToolContinuation => Seq::empty(),
        }
    }
}

/// `parts` joined with `sep` between consecutive parts.
pub open spec fn joined(parts: Seq<String>, sep: Seq<char>) -> Seq<char>
    decreases parts.len(),
{
    if parts.len() == 0 {
        Seq::empty()
    } else if parts.len() == 1 {
        parts[0]@
    } else {
        joined(parts.drop_last(), sep) + sep + parts.last()@
    }
}

/// The separator between recovered chunks in the input box.
pub open spec fn chunk_separator() -> Seq<char> {
    "\n\n---\n\n"@
}

impl ChatSessionState {
    /// Stamps the stream's assistant entry, if any, as finished.
    fn close_stream_entry(&mut self)
        requires
            stream_entry_index(*old(self)) matches Some(i) ==> i < old(self).core.history@.len(),
        ensures
            stream_entry_closed(*old(self), *final(self)),
    {
        match self.core.ephemeral.machine.streaming_entry_index() {
            Some(i) => {
                self.core.history[i].timing.finish();
            },
            None => {},
        }
    }

    /// Begins accumulating thinking tokens: a new empty thinking entry goes
    /// before the stream's assistant entry when that exists (some providers
    /// send reasoning after content), else at the end, and becomes the
    /// thinking entry. Ignored unless streaming without a thinking entry.
    pub fn begin_thinking(&mut self, dispatched_at: jiff::Timestamp)
        requires
            old(self).core.history@.len() < usize::MAX,
        ensures
            thinking_begun(*old(self), *final(self), dispatched_at),

    {
        if self.core.ephemeral.machine.kind() != PhaseKind::Streaming {
            return;
        }
        if self.core.ephemeral.machine.streaming_thinking_entry_index().is_some() {
            return;
        }
        let mut timing = EntryTiming::streamed(dispatched_at);
        timing.set_first_token();
        proof {
            reveal_strlit("");
        }
        let index = match self.core.ephemeral.machine.streaming_entry_index() {
            Some(a) => {
                let id = self.fresh_entry_id();
                let entry = ChatEntry { timing, ..ChatEntry::thinking(id, "") };
                self.insert_entry_at(a, entry)
            },
            None => {
                let entry = ChatEntry { timing, ..ChatEntry::thinking(ChatEntryId(0), "") };
                self.push_new_entry(entry)
            },
        };
        self.core.ephemeral.machine.set_streaming_thinking_entry_index(index);
    }

    /// Appends a token to the thinking entry (when it is one). Fails with
    /// `NoThinkingEntry` when thinking has not begun.
    pub fn append_thinking_token(&mut self, token: &str) -> (r: Result<(), StreamingError>)
        requires
            thinking_entry_index(*old(self)) matches Some(i) ==> i < old(self).core.history@.len(),
        ensures
            thinking_token_appended(*old(self), *final(self), token@, r),

    {
        let index = match self.core.ephemeral.machine.streaming_thinking_entry_index() {
            Some(i) => i,
            None => return Err(StreamingError::NoThinkingEntry),
        };
        let is_thinking = match &self.core.history[index].kind {
            ChatEntryKind::Thinking(_) => true,
            _ => false,
        };
        if !is_thinking {
            return Ok(());
        }
        match &mut self.core.history[index].kind {
            ChatEntryKind::Thinking(text) => {
                text.append(token);
            },
            _ => {},
        }
        Ok(())
    }

    /// History index of the thinking entry, while thinking.
    pub fn streaming_thinking_entry_index(&self) -> (r: Option<usize>)
        ensures
            r == thinking_entry_index(*self),
    {
        self.core.ephemeral.machine.streaming_thinking_entry_index()
    }

    /// Ends the stream normally: when `preserve_assistant`, the assistant
    /// entry is created if it is still missing; the assistant entry is
    /// stamped finished; `Streaming -> Idle`.
    pub fn finish_streaming(&mut self, preserve_assistant: bool, dispatched_at: jiff::Timestamp)
        requires
            old(self).core.history@.len() < usize::MAX,
            stream_entry_index(*old(self)) matches Some(i) ==> i < old(self).core.history@.len(),
        ensures
            finished_rel(*old(self), *final(self), preserve_assistant, dispatched_at),
    {
        if preserve_assistant {
            self.ensure_assistant_entry(dispatched_at);
        }
        let ghost prepared = *self;
        self.close_stream_entry();
        let ghost closed = *self;
        let _ = self.core.ephemeral.machine.on_stream_completed_finished();
        assert(stream_left(closed, *self, false));
    }

    /// Cancels the stream, keeping the partial text: the assistant entry is
    /// created if it is still missing and stamped finished; the machine
    /// returns to `Idle` from any other phase.
    pub fn cancel_streaming(&mut self, dispatched_at: jiff::Timestamp)
        requires
            old(self).core.history@.len() < usize::MAX,
            stream_entry_index(*old(self)) matches Some(i) ==> i < old(self).core.history@.len(),
        ensures
            canceled_rel(*old(self), *final(self), dispatched_at),
    {
        self.ensure_assistant_entry(dispatched_at);
        let ghost prepared = *self;
        self.close_stream_entry();
        let ghost closed = *self;
        let _ = self.core.ephemeral.machine.cancel();
        assert(stream_left(closed, *self, true));
    }
}

impl ChatSessionState {
    /// Takes the steering fragments, then the queue, and returns the text
    /// they give back: the fragments first, then the display text of each
    /// queued user message.
    fn drain_cancel_chunks(&mut self) -> (r: Vec<String>)
        ensures
            r@ == old(self).ui.steering_buffer.fragments@ + queue_texts(old(self).core.ephemeral.message_queue@),
            final(self).ui == (SessionUi {
                steering_buffer: final(self).ui.steering_buffer,
                ..old(self).ui
            }),
            final(self).ui.steering_buffer.fragments@.len() == 0,
            final(self).core.ephemeral.message_queue@.len() == 0,
            final(self).core.ephemeral == (SessionCoreEphemeral {
                message_queue: final(self).core.ephemeral.message_queue,
                ..old(self).core.ephemeral
            }),
            final(self).core == (SessionCore { ephemeral: final(self).core.ephemeral, ..old(self).core }),
    {
        let mut chunks = self.steering_buffer_mut().drain_fragments();
        let queue = self.drain_queue();
        let ghost base = chunks@;
        let n = queue.len();
        let mut i: usize = 0;
        while i < n
            invariant
                n == queue@.len(),
                i <= n,
                chunks@ == base + queue_texts(queue@.subrange(0, i as int)),
            decreases n - i,
        {
            proof {
                assert(queue@.subrange(0, i + 1).drop_last() == queue@.subrange(0, i as int));
                assert(queue@.subrange(0, i + 1).last() == queue@[i as int]);
            }
            match &queue[i] {
                crate::session::QueueItem::UserMessage(e) => match &e.kind {
                    ChatEntryKind::User { display, .. } => {
                        chunks.push(display.clone());
                    },
                    _ => {},
                },
                crate::session::QueueItem::ToolContinuation => {},
            }
            i = i + 1;
        }
        proof {
            assert(queue@.subrange(0, n as int) == queue@);
        }
        chunks
    }

    /// Cancels the stream (see `cancel_streaming`) and gives the user back
    /// what had not been sent yet: the steering fragments, then the text of
    /// each queued user message, joined with a `---` rule, replace the input
    /// box. The queue and the steering buffer end empty; when nothing was
    /// pending the input box is left as it was.
    pub fn cancel_stream_and_drain(&mut self)
        requires
            old(self).core.history@.len() < usize::MAX,
            stream_entry_index(*old(self)) matches Some(i) ==> i < old(self).core.history@.len(),
        ensures
            exists|d: jiff::Timestamp, canceled: ChatSessionState| {
                let text = joined(
                    canceled.ui.steering_buffer.fragments@ + queue_texts(canceled.core.ephemeral.message_queue@),
                    chunk_separator(),
                );
                &&& #[trigger] canceled_rel(*old(self), canceled, d)
                &&& final(self).ui.steering_buffer.fragments@.len() == 0
                &&& final(self).core.ephemeral.message_queue@.len() == 0
                &&& final(self).core.ephemeral == (SessionCoreEphemeral {
                    message_queue: final(self).core.ephemeral.message_queue,
                    ..canceled.core.ephemeral
                })
                &&& final(self).core == (SessionCore { ephemeral: final(self).core.ephemeral, ..canceled.core })
                &&& final(self).ui == (SessionUi {
                    steering_buffer: final(self).ui.steering_buffer,
                    chat_input: final(self).ui.chat_input,
                    ..canceled.ui
                })
                &&& final(self).ui.chat_input.text@ == if text.len() == 0 {
                    canceled.ui.chat_input.text@
                } else {
                    text
                }
            },
    {
        let d = timestamp_now();
        self.cancel_streaming(d);
        let ghost canceled = *self;
        let chunks = self.drain_cancel_chunks();
        let mut text = String::new();
        let n = chunks.len();
        let mut i: usize = 0;
        while i < n
            invariant
                n == chunks@.len(),
                i <= n,
                text@ == joined(chunks@.subrange(0, i as int), chunk_separator()),
            decreases n - i,
        {
            proof {
                reveal_strlit("\n\n---\n\n");
                assert(chunks@.subrange(0, i + 1).drop_last() == chunks@.subrange(0, i as int));
                assert(chunks@.subrange(0, i + 1).last() == chunks@[i as int]);
            }
            if i > 0 {
                text.append("\n\n---\n\n");
            } else {
                assert(chunks@.subrange(0, i + 1)[0] == chunks@[0]);
            }
            text.append(chunks[i].as_str());
            i = i + 1;
        }
        proof {
            assert(chunks@.subrange(0, n as int) == chunks@);
        }
        if text.as_str().is_empty() {
            return;
        }
        self.chat_input_mut().replace_all(text);
    }
}

} // verus!
