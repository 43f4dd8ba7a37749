//! The session's side of a conversation turn: accepting a user message or a
//! resume, recording a dispatch, taking stream tokens and completing a
//! stream. Each step returns what the actor must announce or do next.
use vstd::prelude::*;
use vstd::string::*;
use crate::entry::{ChatEntry, ChatEntryId, ChatEntryKind, ContextOverride};
use crate::phase::PhaseKind;
use crate::profile::ModelSelection;
use crate::session_restore::names_no_provider;
use crate::session::{session_wf, ChatSessionState, HistoryMutation, QueueItem, SessionCore, SessionCoreEphemeral, SessionUi, StreamingError};
use crate::session_history::swept_rel;
use crate::session_mutation::{drained_applied_rel, total_mutations};
use crate::session_stream::{finished_rel, joined, machine_only, minted_push, queue_texts, stream_entry_index, stream_token_appended, thinking_begun, thinking_entry_index, thinking_token_appended};
use crate::token_stats::TokenRecord;
use crate::transition::is_fresh_streaming;

verus! {

/// Why a stream ended.
#[derive(Debug, Clone, Copy, PartialEq, Eq, Structural)]
pub enum StreamCompletedReason {
    /// The response is complete.
    Finished,
    /// The model asked for tools; the turn continues.
    ToolUse,
    /// The stream failed.
    Error,
    /// The user canceled the stream.
    Canceled,
}

/// What to do with a user message.
#[derive(Debug, Clone, Copy, PartialEq, Eq, Structural)]
pub enum EnqueueAction {
    /// The session was idle: the message is in history; assemble and send.
    DispatchDirectly,
    /// The session was busy: the message waits in the queue.
    Queued,
}

/// What completing a stream changed.
#[derive(Debug, Clone)]
pub struct StreamCompletion {
    /// The entries whose context override changed, in order.
    pub changed: Vec<ChatEntryId>,
    pub old_phase: PhaseKind,
    pub new_phase: PhaseKind,
    /// Whether the session should be persisted now.
    pub should_save: bool,
}

/// The first line of `s`: up to the first line feed, without the carriage
/// return of a `\r\n` ending; all of `s` when it holds no line feed.
pub open spec fn first_line(s: Seq<char>) -> Seq<char> {
    if exists|i: int| 0 <= i < s.len() && s[i] == '\n' {
        let line = s.subrange(0, choose|i: int| is_first_newline(s, i));
        if line.len() > 0 && line.last() == '\r' {
            line.drop_last()
        } else {
            line
        }
    } else {
        s
    }
}

/// `i` is the position of the first line feed of `s`.
pub open spec fn is_first_newline(s: Seq<char>, i: int) -> bool {
    &&& 0 <= i < s.len()
    &&& s[i] == '\n'
    &&& forall|k: int| 0 <= k < i ==> #[trigger] s[k] != '\n'
}

/// The title a session takes from its first user message.
pub open spec fn title_from(e: ChatEntry) -> Seq<char> {
    match e.kind {
        ChatEntryKind::User { display, .. } => first_line(display@),
        _ => Seq::empty(),
    }
}

/// The number of output tokens recorded for a completed stream: the larger
/// of the local count and the provider's report when the text was counted
/// locally, else the provider's report.
pub open spec fn output_tokens_of(local: Option<u32>, provider: Option<u32>) -> Option<u32> {
    match local {
        Some(l) => {
            let p = match provider {
                Some(p) => p,
                None => 0,
            };
            Some(if l >= p { l } else { p })
        },
        None => provider,
    }
}

/// The sum of the token counts of a response's tool calls: for each call,
/// the count of its arguments and the count of its name.
pub open spec fn tool_call_tokens(calls: Seq<(u32, u32)>) -> int
    decreases calls.len(),
{
    if calls.len() == 0 {
        0
    } else {
        tool_call_tokens(calls.drop_last()) + calls.last().0 + calls.last().1
    }
}

/// Whether a completed stream's output is counted locally: when it finished
/// or stopped for tools, and produced content.
pub open spec fn counts_locally(reason: StreamCompletedReason, content: Option<u32>) -> bool {
    reason != StreamCompletedReason::Canceled && reason != StreamCompletedReason::Error && content is Some
}

/// The local output count of a completed stream: the count of the content,
/// plus that of the thinking text, plus the tool calls' counts; none when the
/// output is not counted locally.
pub open spec fn local_output_of(
    reason: StreamCompletedReason,
    content: Option<u32>,
    thinking: u32,
    calls: Seq<(u32, u32)>,
) -> Option<int> {
    if counts_locally(reason, content) {
        Some(content->0 + thinking + tool_call_tokens(calls))
    } else {
        None
    }
}

/// Forms the local output count of a completed stream from the token counts
/// of its parts: `content` for the assistant text (none when there was
/// none), `thinking` for the thinking text (0 when there was none), and for
/// each tool call the counts of its arguments and its name.
pub fn local_output_count(
    reason: StreamCompletedReason,
    content: Option<u32>,
    thinking: u32,
    tool_calls: &Vec<(u32, u32)>,
) -> (r: Option<u32>)
    requires
        counts_locally(reason, content) ==> content->0 + thinking + tool_call_tokens(tool_calls@) <= u32::MAX,
    ensures
        match local_output_of(reason, content, thinking, tool_calls@) {
            Some(n) => r == Some(n as u32),
            None => r is None,
        },
{
    if reason == StreamCompletedReason::Canceled || reason == StreamCompletedReason::Error {
        return None;
    }
    let c = match content {
        Some(c) => c,
        None => return None,
    };
    let ghost total = c + thinking + tool_call_tokens(tool_calls@);
    proof {
        lemma_tool_call_tokens_nonneg(tool_calls@);
        assert(tool_calls@.take(0) == Seq::<(u32, u32)>::empty());
    }
    let mut tokens: u32 = c + thinking;
    let n = tool_calls.len();
    let mut i: usize = 0;
    while i < n
        invariant
            n == tool_calls@.len(),
            i <= n,
            total == c + thinking + tool_call_tokens(tool_calls@),
            total <= u32::MAX,
            tokens == c + thinking + tool_call_tokens(tool_calls@.take(i as int)),
        decreases n - i,
    {
        proof {
            assert(tool_calls@.take(i + 1).drop_last() == tool_calls@.take(i as int));
            assert(tool_calls@.take(i + 1).last() == tool_calls@[i as int]);
            lemma_tool_call_tokens_prefix(tool_calls@, i + 1);
        }
        let (args, name) = tool_calls[i];
        tokens = tokens + args;
        tokens = tokens + name;
        i = i + 1;
    }
    assert(tool_calls@.take(n as int) == tool_calls@);
    Some(tokens)
}

/// The tool calls' counts over a prefix are at most those over all calls.
proof fn lemma_tool_call_tokens_prefix(calls: Seq<(u32, u32)>, k: int)
    requires
        0 <= k <= calls.len(),
    ensures
        0 <= tool_call_tokens(calls.take(k)) <= tool_call_tokens(calls),
    decreases calls.len(),
{
    if k < calls.len() {
        assert(calls.drop_last().take(k) == calls.take(k));
        lemma_tool_call_tokens_prefix(calls.drop_last(), k);
    } else {
        assert(calls.take(k) == calls);
        lemma_tool_call_tokens_nonneg(calls);
    }
}

/// The tool calls' counts are never negative.
proof fn lemma_tool_call_tokens_nonneg(calls: Seq<(u32, u32)>)
    ensures
        tool_call_tokens(calls) >= 0,
    decreases calls.len(),
{
    if calls.len() > 0 {
        lemma_tool_call_tokens_nonneg(calls.drop_last());
    }
}

/// The provider and the model a dispatch names, from the session's model
/// selection and the model that selection resolves to: neither while no
/// provider is chosen, else the resolved model for both (the model is also
/// what the dispatch's ledger record holds).
pub fn dispatch_target(model: &ModelSelection, resolved: String) -> (r: (Option<String>, Option<String>))
    ensures
        names_no_provider(*model) ==> r.0 is None && r.1 is None,
        !names_no_provider(*model) ==> (r.0 matches Some(p) && p@ == resolved@) && (r.1 matches Some(m) && m@
            == resolved@),
{
    if model.is_no_provider() {
        (None, None)
    } else {
        let provider = resolved.clone();
        (Some(provider), Some(resolved))
    }
}

/// Decides the output token count of a completed stream.
pub fn output_token_count(local: Option<u32>, provider: Option<u32>) -> (r: Option<u32>)
    ensures
        r == output_tokens_of(local, provider),
{
    match local {
        Some(l) => {
            let p = match provider {
                Some(p) => p,
                None => 0,
            };
            Some(if l >= p { l } else { p })
        },
        None => provider,
    }
}

/// `t` is `s` after the completion's bookkeeping before leaving the
/// stream: a canceled stream appends a "Cancelled" error entry; a finished
/// stream with an output count completes the last ledger record (when there
/// is one); an error changes nothing here.
pub open spec fn completion_recorded(
    s: ChatSessionState,
    t: ChatSessionState,
    reason: StreamCompletedReason,
    output_tokens: Option<u32>,
    cost_bits: Option<u64>,
    model_used: Option<String>,
) -> bool {
    match reason {
        StreamCompletedReason::Canceled => {
            let e = t.core.history@.last();
            &&& minted_push(s, t, e, s.core.ephemeral.machine)
            &&& e.kind matches ChatEntryKind::Error(text) && text@ == "Cancelled"@
            &&& crate::entry::fresh_entry(e, e.id, e.kind)
        },
        StreamCompletedReason::Error => t == s,
        _ => match output_tokens {
            Some(n) => if s.core.token_ledger@.len() > 0 {
                &&& t.ui == s.ui
                &&& t.core == (SessionCore { token_ledger: t.core.token_ledger, ..s.core })
                &&& t.core.token_ledger@ == s.core.token_ledger@.update(
                    s.core.token_ledger@.len() - 1,
                    TokenRecord {
                        tokens_received: n,
                        cost_bits: cost_bits,
                        model_used: model_used,
                        ..s.core.token_ledger@.last()
                    },
                )
            } else {
                t == s
            },
            None => t == s,
        },
    }
}

/// `t` is `s` after `Idle -> Sending` (other phases unchanged).
pub open spec fn sending_begun(s: ChatSessionState, t: ChatSessionState) -> bool {
    &&& machine_only(s, t)
    &&& t.core.ephemeral.machine.tool_loop_disabled_view() == s.core.ephemeral.machine.tool_loop_disabled_view()
    &&& if s.core.ephemeral.machine.kind_view() == PhaseKind::Idle {
        t.core.ephemeral.machine.phase_view() is Sending
    } else {
        t.core.ephemeral.machine.phase_view() == s.core.ephemeral.machine.phase_view()
    }
}

/// `t` is `s` after giving the queued messages back to the input box: the
/// queue ends empty and, when some user text was queued, its lines replace
/// the input.
pub open spec fn queue_returned(s: ChatSessionState, t: ChatSessionState) -> bool {
    let text = joined(queue_texts(s.core.ephemeral.message_queue@), "\n"@);
    &&& t.core.ephemeral.message_queue@.len() == 0
    &&& t.core.ephemeral == (SessionCoreEphemeral { message_queue: t.core.ephemeral.message_queue, ..s.core.ephemeral })
    &&& t.core == (SessionCore { ephemeral: t.core.ephemeral, ..s.core })
    &&& t.ui == (SessionUi { chat_input: t.ui.chat_input, ..s.ui })
    &&& t.ui.chat_input.text@ == if text.len() == 0 { s.ui.chat_input.text@ } else { text }
}

/// After a cancel, dangling tool calls are swept out of context; otherwise
/// nothing changes.
pub open spec fn cancel_swept(reason: StreamCompletedReason, s: ChatSessionState, t: ChatSessionState, c: Seq<ChatEntryId>) -> bool {
    if reason == StreamCompletedReason::Canceled {
        swept_rel(s, t, c)
    } else {
        t == s && c.len() == 0
    }
}

/// Unless the turn continues with tools, every pending mutation batch is
/// applied.
pub open spec fn mutations_settled(reason: StreamCompletedReason, s: ChatSessionState, t: ChatSessionState, c: Seq<ChatEntryId>) -> bool {
    if reason != StreamCompletedReason::ToolUse {
        drained_applied_rel(s, t, s.core.ephemeral.pending_mutations@.len() as usize, c)
    } else {
        t == s && c.len() == 0
    }
}

/// A tool turn goes back to sending.
pub open spec fn tool_resumed(reason: StreamCompletedReason, s: ChatSessionState, t: ChatSessionState) -> bool {
    if reason == StreamCompletedReason::ToolUse {
        sending_begun(s, t)
    } else {
        t == s
    }
}

/// After an error or a cancel the queue goes back to the input box.
pub open spec fn queue_settled(reason: StreamCompletedReason, s: ChatSessionState, t: ChatSessionState) -> bool {
    if reason == StreamCompletedReason::Error || reason == StreamCompletedReason::Canceled {
        queue_returned(s, t)
    } else {
        t == s
    }
}

/// `t` is `s` after completing a stream for `reason` (see `complete_stream`),
/// and `changed` lists the entries whose override changed.
pub open spec fn stream_completed_rel(
    s: ChatSessionState,
    t: ChatSessionState,
    reason: StreamCompletedReason,
    output_tokens: Option<u32>,
    cost_bits: Option<u64>,
    model_used: Option<String>,
    dispatched_at: jiff::Timestamp,
    changed: Seq<ChatEntryId>,
) -> bool {
    exists|
        s1: ChatSessionState,
        s2: ChatSessionState,
        s3: ChatSessionState,
        s4: ChatSessionState,
        s5: ChatSessionState,
        c1: Seq<ChatEntryId>,
        c2: Seq<ChatEntryId>,
    |
        #![trigger completion_recorded(s, s1, reason, output_tokens, cost_bits, model_used), cancel_swept(reason, s2, s3, c1), mutations_settled(reason, s3, s4, c2), tool_resumed(reason, s4, s5)]
        {
        &&& completion_recorded(s, s1, reason, output_tokens, cost_bits, model_used)
        &&& finished_rel(
            s1,
            s2,
            reason == StreamCompletedReason::Finished || reason == StreamCompletedReason::ToolUse,
            dispatched_at,
        )
        &&& cancel_swept(reason, s2, s3, c1)
        &&& mutations_settled(reason, s3, s4, c2)
        &&& tool_resumed(reason, s4, s5)
        &&& queue_settled(reason, s5, t)
        &&& changed == c1 + c2
    }
}

/// The separator between steering fragments joined into one message.
pub open spec fn steering_separator() -> Seq<char> {
    "\n\n"@
}

/// `t` is `s` after moving its steering fragments into the history: with
/// none, nothing changes; otherwise the buffer is emptied and one user
/// message holding the fragments, oldest first and separated by blank
/// lines, is appended with a fresh id.
pub open spec fn steering_drained(s: ChatSessionState, t: ChatSessionState) -> bool {
    let frags = s.ui.steering_buffer.fragments@;
    if frags.len() == 0 {
        t == s
    } else {
        let e = t.core.history@.last();
        exists|emptied: ChatSessionState| {
            &&& #[trigger] minted_push(emptied, t, e, s.core.ephemeral.machine)
            &&& emptied.core == s.core
            &&& emptied.ui == (SessionUi { steering_buffer: emptied.ui.steering_buffer, ..s.ui })
            &&& emptied.ui.steering_buffer.fragments@.len() == 0
            &&& e.kind matches ChatEntryKind::User { display, attachments } && display@ == joined(
                frags,
                steering_separator(),
            ) && attachments@.len() == 0
            &&& crate::entry::fresh_entry(e, ChatEntryId(s.core.ephemeral.next_entry_id), e.kind)
        }
    }
}

impl ChatSessionState {
    /// Moves the steering fragments into the history as one user message
    /// (see `steering_drained`); an empty buffer changes nothing.
    pub fn drain_steering_into_history(&mut self)
        requires
            old(self).core.history@.len() < usize::MAX,
        ensures
            steering_drained(*old(self), *final(self)),
    {
        if self.ui.steering_buffer.fragments.len() == 0 {
            return;
        }
        let frags = self.ui.steering_buffer.drain_fragments();
        let ghost emptied = *self;
        let n = frags.len();
        let mut text = String::new();
        let mut i: usize = 0;
        proof {
            reveal_strlit("");
        }
        while i < n
            invariant
                n == frags@.len(),
                i <= n,
                text@ == joined(frags@.subrange(0, i as int), steering_separator()),
            decreases n - i,
        {
            proof {
                reveal_strlit("\n\n");
                assert(frags@.subrange(0, i + 1).drop_last() == frags@.subrange(0, i as int));
                assert(frags@.subrange(0, i + 1).last() == frags@[i as int]);
                if i == 0 {
                    assert(frags@.subrange(0, 1).len() == 1);
                    assert(frags@.subrange(0, 1)[0] == frags@[0]);
                }
            }
            if i > 0 {
                text.append("\n\n");
            }
            text.append(frags[i].as_str());
            i = i + 1;
        }
        proof {
            assert(frags@.subrange(0, n as int) == frags@);
        }
        let entry = ChatEntry::user(ChatEntryId(0), text.as_str());
        self.push_new_entry(entry);
        assert(minted_push(emptied, *self, self.core.history@.last(), old(self).core.ephemeral.machine));
    }

    /// Takes a user message: when idle, the session takes its title from the
    /// message's first line (if it has none yet), appends the message,
    /// starts sending and moves any steering fragments into the history
    /// after the message; when busy, the message waits in the queue.
    pub fn accept_user_message(&mut self, entry: ChatEntry) -> (r: EnqueueAction)
        requires
            old(self).core.history@.len() + 1 < usize::MAX,
        ensures
            old(self).core.ephemeral.machine.kind_view() == PhaseKind::Idle ==> {
                &&& r == EnqueueAction::DispatchDirectly
                &&& exists|titled: ChatSessionState, pushed: ChatSessionState, sent: ChatSessionState|
                    #![trigger crate::session::pushed_rel(titled, pushed, entry), steering_drained(sent, *final(self))]
                    {
                    &&& (if old(self).core.title is None {
                        &&& titled.ui == old(self).ui
                        &&& titled.core == (SessionCore { title: titled.core.title, ..old(self).core })
                        &&& titled.core.title matches Some(t) && t@ == title_from(entry)
                    } else {
                        titled == *old(self)
                    })
                    &&& crate::session::pushed_rel(titled, pushed, entry)
                    &&& sending_begun(pushed, sent)
                    &&& steering_drained(sent, *final(self))
                }
            },
            old(self).core.ephemeral.machine.kind_view() != PhaseKind::Idle ==> {
                &&& r == EnqueueAction::Queued
                &&& final(self).core.ephemeral.message_queue@ == old(self).core.ephemeral.message_queue@.push(
                    QueueItem::UserMessage(entry),
                )
                &&& final(self).core.ephemeral == (SessionCoreEphemeral {
                    message_queue: final(self).core.ephemeral.message_queue,
                    ..old(self).core.ephemeral
                })
                &&& final(self).core == (SessionCore { ephemeral: final(self).core.ephemeral, ..old(self).core })
                &&& final(self).ui == old(self).ui
            },
    {
        if self.core.ephemeral.machine.kind() != PhaseKind::Idle {
            self.enqueue(QueueItem::UserMessage(entry));
            return EnqueueAction::Queued;
        }
        if self.core.title.is_none() {
            let title = match &entry.kind {
                ChatEntryKind::User { display, .. } => first_line_of(display.as_str()),
                _ => String::new(),
            };
            self.set_title(title);
        }
        self.push_entry(entry);
        let ghost pushed = *self;
        self.begin_sending();
        let ghost sent = *self;
        assert(sending_begun(pushed, sent));
        self.drain_steering_into_history();
        assert(steering_drained(sent, *self));
        EnqueueAction::DispatchDirectly
    }

    /// Records a dispatch to the model: the stream begins and a ledger
    /// record opens with the estimated prompt size. Returns the phases
    /// before and after.
    pub fn record_dispatch(&mut self, tokens_sent: u32, model_used: Option<String>, timestamp: jiff::Timestamp) -> (r: (
        PhaseKind,
        PhaseKind,
    ))
        ensures
            r.0 == old(self).core.ephemeral.machine.kind_view(),
            r.1 == final(self).core.ephemeral.machine.kind_view(),
            final(self).core.ephemeral.machine.kind_view() == PhaseKind::Streaming,
            old(self).core.ephemeral.machine.kind_view() != PhaseKind::Streaming ==> is_fresh_streaming(
                final(self).core.ephemeral.machine.phase_view(),
            ),
            final(self).core.token_ledger@ == old(self).core.token_ledger@.push(
                TokenRecord {
                    timestamp,
                    tokens_sent,
                    tokens_received: 0,
                    cost_bits: None,
                    model_used,
                    prompt_tokens: None,
                    cached_tokens: None,
                },
            ),
            final(self).ui == old(self).ui,
            final(self).core == (SessionCore {
                token_ledger: final(self).core.token_ledger,
                ephemeral: SessionCoreEphemeral { machine: final(self).core.ephemeral.machine, ..old(self).core.ephemeral },
                ..old(self).core
            }),
    {
        let before = self.phase();
        self.begin_streaming();
        self.push_token_record(TokenRecord {
            timestamp,
            tokens_sent,
            tokens_received: 0,
            cost_bits: None,
            model_used,
            prompt_tokens: None,
            cached_tokens: None,
        });
        (before, self.phase())
    }

    /// Resumes a turn without a new message: when idle, a "session resumed"
    /// system marker is appended, sending starts and any steering fragments
    /// move into the history after the marker; a busy session ignores the
    /// request (`None`).
    pub fn accept_resume(&mut self) -> (r: Option<(PhaseKind, PhaseKind)>)
        requires
            old(self).core.history@.len() + 1 < usize::MAX,
        ensures
            old(self).core.ephemeral.machine.kind_view() != PhaseKind::Idle ==> r is None && *final(self) == *old(self),
            old(self).core.ephemeral.machine.kind_view() == PhaseKind::Idle ==> {
                let e = final(self).core.history@[old(self).core.history@.len() as int];
                &&& r == Some((PhaseKind::Idle, PhaseKind::Sending))
                &&& e.kind matches ChatEntryKind::System(text) && text@ == "\u{21bb} session resumed"@
                &&& crate::entry::fresh_entry(e, ChatEntryId(old(self).core.ephemeral.next_entry_id), e.kind)
                &&& exists|pushed: ChatSessionState, sent: ChatSessionState|
                    #![trigger minted_push(*old(self), pushed, e, old(self).core.ephemeral.machine), steering_drained(sent, *final(self))]
                    {
                    &&& minted_push(*old(self), pushed, e, old(self).core.ephemeral.machine)
                    &&& sending_begun(pushed, sent)
                    &&& steering_drained(sent, *final(self))
                }
            },
    {
        if self.core.ephemeral.machine.kind() != PhaseKind::Idle {
            return None;
        }
        let marker = ChatEntry::system(ChatEntryId(0), "\u{21bb} session resumed");
        self.push_new_entry(marker);
        let ghost pushed = *self;
        let ghost e = self.core.history@.last();
        assert(minted_push(*old(self), pushed, e, old(self).core.ephemeral.machine));
        self.begin_sending();
        let ghost sent = *self;
        assert(sending_begun(pushed, sent));
        let phase = self.phase();
        self.drain_steering_into_history();
        assert(steering_drained(sent, *self));
        assert(self.core.history@[old(self).core.history@.len() as int] == e);
        Some((PhaseKind::Idle, phase))
    }

    /// Takes history mutations from a worker: a non-empty batch is queued
    /// and, when the session is idle, every pending batch is applied at once.
    /// Returns the entries whose override changed.
    pub fn submit_mutations(&mut self, batch: Vec<HistoryMutation>) -> (r: Vec<ChatEntryId>)
        requires
            session_wf(*old(self)),
            old(self).core.history@.len() + total_mutations(old(self).core.ephemeral.pending_mutations@) + batch@.len()
                < usize::MAX,
        ensures
            session_wf(*final(self)),
            batch@.len() == 0 ==> *final(self) == *old(self) && r@.len() == 0,
            batch@.len() > 0 ==> exists|queued: ChatSessionState| {
                &&& queued.core.ephemeral.pending_mutations@ == old(self).core.ephemeral.pending_mutations@.push(batch)
                &&& queued.core.ephemeral == (SessionCoreEphemeral {
                    pending_mutations: queued.core.ephemeral.pending_mutations,
                    ..old(self).core.ephemeral
                })
                &&& queued.core == (SessionCore { ephemeral: queued.core.ephemeral, ..old(self).core })
                &&& queued.ui == old(self).ui
                &&& if old(self).core.ephemeral.machine.kind_view() == PhaseKind::Idle {
                    drained_applied_rel(queued, *final(self), queued.core.ephemeral.pending_mutations@.len() as usize, r@)
                } else {
                    *final(self) == queued && r@.len() == 0
                }
            },
    {
        if batch.len() == 0 {
            return Vec::new();
        }
        let ghost b = batch;
        self.queue_mutations(batch);
        let ghost queued = *self;
        proof {
            lemma_total_push(old(self).core.ephemeral.pending_mutations@, b);
        }
        if self.core.ephemeral.machine.kind() == PhaseKind::Idle {
            let (_count, changed) = self.drain_and_apply_pending_mutations();
            changed
        } else {
            Vec::new()
        }
    }

    /// Takes one stream token: a session still sending begins streaming; a
    /// reasoning token goes to the thinking entry (begun when missing), any
    /// other token to the assistant entry.
    pub fn accept_stream_token(&mut self, token: &str, is_thinking: bool, dispatched_at: jiff::Timestamp) -> (r: Result<
        (),
        StreamingError,
    >)
        requires
            old(self).core.history@.len() + 1 < usize::MAX,
            stream_entry_index(*old(self)) matches Some(i) ==> i < old(self).core.history@.len(),
            crate::session_stream::thinking_entry_index(*old(self)) matches Some(i) ==> i < old(self).core.history@.len(),
        ensures
            is_thinking ==> exists|started: ChatSessionState, mid: ChatSessionState| {
                &&& #[trigger] token_phase_ready(*old(self), started)
                &&& #[trigger] thinking_ready(started, mid, dispatched_at)
                &&& thinking_token_appended(mid, *final(self), token@, r)
            },
            !is_thinking ==> exists|started: ChatSessionState| {
                &&& #[trigger] token_phase_ready(*old(self), started)
                &&& stream_token_appended(started, *final(self), token@, dispatched_at, r)
            },
    {
        if self.core.ephemeral.machine.kind() == PhaseKind::Sending {
            self.begin_streaming();
        }
        let ghost started = *self;
        assert(token_phase_ready(*old(self), started));
        if is_thinking {
            if self.core.ephemeral.machine.streaming_thinking_entry_index().is_none() {
                self.begin_thinking(dispatched_at);
            }
            let ghost mid = *self;
            assert(thinking_ready(started, mid, dispatched_at));
            self.append_thinking_token(token)
        } else {
            self.append_stream_token(token, dispatched_at)
        }
    }

    /// Completes a stream for `reason`: a cancel appends a "Cancelled" error
    /// entry; otherwise an output count completes the last ledger record;
    /// the stream then ends (keeping the assistant entry when finished or
    /// continuing with tools); a cancel sweeps dangling tool calls out of
    /// context; unless the turn continues with tools, pending history
    /// mutations are applied; a tool turn goes back to sending; after an
    /// error or a cancel the queued messages return to the input box, one
    /// per line. The session is to be saved unless the turn continues.
    pub fn complete_stream(
        &mut self,
        reason: StreamCompletedReason,
        output_tokens: Option<u32>,
        cost_bits: Option<u64>,
        model_used: Option<String>,
        dispatched_at: jiff::Timestamp,
    ) -> (r: StreamCompletion)
        requires
            session_wf(*old(self)),
            old(self).core.history@.len() + 2 + total_mutations(old(self).core.ephemeral.pending_mutations@) < usize::MAX,
            stream_entry_index(*old(self)) matches Some(i) ==> i < old(self).core.history@.len(),
        ensures
            session_wf(*final(self)),
            r.old_phase == old(self).core.ephemeral.machine.kind_view(),
            r.new_phase == final(self).core.ephemeral.machine.kind_view(),
            r.should_save == (reason != StreamCompletedReason::ToolUse),
            old(self).core.ephemeral.machine.kind_view() == PhaseKind::Streaming ==> r.new_phase == if reason
                == StreamCompletedReason::ToolUse {
                PhaseKind::Sending
            } else {
                PhaseKind::Idle
            },
            stream_completed_rel(*old(self), *final(self), reason, output_tokens, cost_bits, model_used, dispatched_at, r.changed@),
    {
        let old_phase = self.phase();
        let ghost s0 = *self;
        match reason {
            StreamCompletedReason::Canceled => {
                let entry = ChatEntry::error(ChatEntryId(0), String::from_str("Cancelled"));
                self.push_new_entry(entry);
            },
            StreamCompletedReason::Error => {},
            _ => match output_tokens {
                Some(n) => {
                    if self.core.token_ledger.len() > 0 {
                        let _ = self.finalize_last_token_record(n, cost_bits, model_used);
                    }
                },
                None => {},
            },
        }
        let ghost s1 = *self;
        assert(completion_recorded(s0, s1, reason, output_tokens, cost_bits, model_used));
        let preserve = reason == StreamCompletedReason::Finished || reason == StreamCompletedReason::ToolUse;
        self.finish_streaming(preserve, dispatched_at);
        let ghost s2 = *self;
        let mut changed: Vec<ChatEntryId> = Vec::new();
        if reason == StreamCompletedReason::Canceled {
            changed = self.force_exclude_dangling_tool_calls();
        }
        let ghost s3 = *self;
        let ghost c1 = changed@;
        if reason != StreamCompletedReason::ToolUse {
            let (_count, mut applied) = self.drain_and_apply_pending_mutations();
            let ghost a = applied@;
            changed.append(&mut applied);
            assert(changed@.subrange(c1.len() as int, changed@.len() as int) == a);
        }
        let ghost s4 = *self;
        if reason == StreamCompletedReason::ToolUse {
            self.begin_sending();
        }
        let ghost s5 = *self;
        if reason == StreamCompletedReason::Error || reason == StreamCompletedReason::Canceled {
            self.return_queue_to_input();
        }
        proof {
            let c2 = changed@.subrange(c1.len() as int, changed@.len() as int);
            assert(changed@ == c1 + c2);
            assert(finished_rel(s1, s2, preserve, dispatched_at));
            assert(cancel_swept(reason, s2, s3, c1));
            assert(mutations_settled(reason, s3, s4, c2));
            assert(tool_resumed(reason, s4, s5));
            assert(queue_settled(reason, s5, *self));
        }
        let new_phase = self.phase();
        StreamCompletion { changed, old_phase, new_phase, should_save: reason != StreamCompletedReason::ToolUse }
    }

    /// Empties the queue into the input box: the display text of each queued
    /// user message, one per line, replaces the input when there is any.
    fn return_queue_to_input(&mut self)
        ensures
            queue_returned(*old(self), *final(self)),
    {
        let queue = self.drain_queue();
        let n = queue.len();
        let mut text = String::new();
        let mut parts: Vec<String> = Vec::new();
        let mut i: usize = 0;
        while i < n
            invariant
                n == queue@.len(),
                i <= n,
                parts@ == queue_texts(queue@.subrange(0, i as int)),
                text@ == joined(parts@, "\n"@),
            decreases n - i,
        {
            proof {
                assert(queue@.subrange(0, i + 1).drop_last() == queue@.subrange(0, i as int));
                assert(queue@.subrange(0, i + 1).last() == queue@[i as int]);
                reveal_strlit("\n");
            }
            match &queue[i] {
                QueueItem::UserMessage(e) => match &e.kind {
                    ChatEntryKind::User { display, .. } => {
                        let ghost before = parts@;
                        if parts.len() > 0 {
                            text.append("\n");
                        }
                        text.append(display.as_str());
                        parts.push(display.clone());
                        proof {
                            assert(parts@.drop_last() == before);
                            if before.len() == 0 {
                                assert(parts@.len() == 1);
                            }
                        }
                    },
                    _ => {},
                },
                QueueItem::ToolContinuation => {},
            }
            i = i + 1;
        }
        proof {
            assert(queue@.subrange(0, n as int) == queue@);
        }
        if text.as_str().is_empty() {
            return;
        }
        self.chat_input_mut().replace_all(text);
    }
}

/// `started` is `s` once a token may be taken: a session still sending has
/// begun streaming, any other is unchanged.
pub open spec fn token_phase_ready(s: ChatSessionState, started: ChatSessionState) -> bool {
    if s.core.ephemeral.machine.kind_view() == PhaseKind::Sending {
        &&& machine_only(s, started)
        &&& is_fresh_streaming(started.core.ephemeral.machine.phase_view())
    } else {
        started == s
    }
}

/// `t` is `s` once a reasoning token may be taken: the thinking entry is
/// begun when missing.
pub open spec fn thinking_ready(s: ChatSessionState, t: ChatSessionState, dispatched_at: jiff::Timestamp) -> bool {
    if thinking_entry_index(s) is None {
        thinking_begun(s, t, dispatched_at)
    } else {
        t == s
    }
}

/// The first line of `s` (see `first_line`).
fn first_line_of(s: &str) -> (r: String)
    ensures
        r@ == first_line(s@),
{
    let n = s.unicode_len();
    let mut i: usize = 0;
    while i < n && s.get_char(i) != '\n'
        invariant
            n == s@.len(),
            i <= n,
            forall|k: int| 0 <= k < i ==> #[trigger] s@[k] != '\n',
        decreases n - i,
    {
        i = i + 1;
    }
    proof {
        if i < n {
            assert(is_first_newline(s@, i as int));
            let j = choose|j: int| is_first_newline(s@, j);
            if j < i {
                assert(s@[j] != '\n');
            }
            if i < j {
                assert(s@[i as int] != '\n');
            }
        } else {
            assert forall|k: int| !(0 <= k < s@.len() && s@[k] == '\n') by {}
        }
    }
    let end = if i < n && i > 0 && s.get_char(i - 1) == '\r' { i - 1 } else { i };
    let line = s.substring_char(0, end);
    proof {
        assert(s@.subrange(0, i as int).len() == i);
        if i < n && i > 0 && s@[i - 1] == '\r' {
            assert(s@.subrange(0, i as int).drop_last() == s@.subrange(0, end as int));
        }
        if i == n {
            assert(s@.subrange(0, i as int) == s@);
        }
    }
    String::from_str(line)
}

/// Appending a batch adds its size to the total.
proof fn lemma_total_push(batches: Seq<Vec<HistoryMutation>>, b: Vec<HistoryMutation>)
    ensures
        total_mutations(batches.push(b)) == total_mutations(batches) + b@.len(),
{
    assert(batches.push(b).drop_last() == batches);
}

} // verus!
