//! Chat entries: the unit of conversation history, with their context
//! override and its audit trail.
use vstd::prelude::*;
use crate::clock::timestamp_now;

verus! {

/// Identifier of a chat entry.
#[derive(Debug, Clone, Copy, PartialEq, Eq, Structural, Hash)]
pub struct ChatEntryId(pub u64);

/// Whether an entry is forced into, or out of, the assembled context.
#[derive(Debug, Clone, Copy, PartialEq, Eq, Structural, Hash)]
pub enum ContextOverride {
    /// The entry kind decides.
    Default,
    /// Always included.
    ForcedInclude,
    /// Always excluded.
    ForcedExclude,
}

/// Who changed an entry's context override.
#[derive(Debug, Clone)]
pub enum ChangeSource {
    /// The user, interactively.
    User,
    /// The application itself, with a label naming the operation.
    Internal { label: String },
    /// A background history worker, by name.
    Worker { name: String },
}

/// One recorded change of an entry's context override.
#[derive(Debug, Clone)]
pub struct ContextChange {
    /// The override the entry took.
    pub value: ContextOverride,
    /// Who made the change.
    pub source: ChangeSource,
}

/// Where a pinned entry is placed in the assembled context.
#[derive(Debug, Clone, Copy, PartialEq, Eq, Structural, Hash)]
pub enum PinPosition {
    Top,
    Bottom,
    Relative,
}

/// Status of a tool result entry.
#[derive(Debug, Clone, Copy, PartialEq, Eq, Structural, Hash)]
pub enum ToolResultStatus {
    /// The tool is still running.
    Pending,
    Success,
    Failure,
}

/// How a tool output was truncated before entering history.
#[derive(Debug, Clone, Copy, PartialEq, Eq, Structural)]
pub struct TruncationMeta {
    /// Length of the full output.
    pub total_len: usize,
    /// Length kept in the entry content.
    pub kept_len: usize,
}

/// A file attached to a user message.
#[derive(Debug, Clone)]
pub struct Attachment {
    /// MIME type, e.g. `image/png`.
    pub media_type: String,
    /// The file contents.
    pub data: Vec<u8>,
}

/// The content of a chat entry.
#[derive(Debug, Clone)]
pub enum ChatEntryKind {
    /// A user message: its display text and attachments.
    User { display: String, attachments: Vec<Attachment> },
    /// Assistant text.
    Assistant(String),
    /// Model reasoning text.
    Thinking(String),
    /// A tool invocation requested by the model.
    ToolCall { id: String, name: String, arguments: String },
    /// The output of a tool invocation.
    ToolResult {
        id: String,
        name: String,
        content: String,
        status: ToolResultStatus,
        full_content: Option<String>,
        truncation: Option<TruncationMeta>,
        pin_position: Option<PinPosition>,
    },
    /// A system message.
    System(String),
    /// An error shown to the user.
    Error(String),
    /// A display-only notice that is never persisted.
    Transient(String),
}

/// Whether entries of this kind enter the context when not overridden.
pub open spec fn included_by_default(k: ChatEntryKind) -> bool {
    match k {
        ChatEntryKind::Thinking(_) => false,
        ChatEntryKind::Error(_) => false,
        ChatEntryKind::Transient(_) => false,
        _ => true,
    }
}

impl ChatEntryKind {
    /// Whether entries of this kind enter the context when not overridden:
    /// every kind but thinking, error and transient entries.
    pub fn is_included_by_default(&self) -> (b: bool)
        ensures
            b == included_by_default(*self),
    {
        match self {
            ChatEntryKind::Thinking(_) => false,
            ChatEntryKind::Error(_) => false,
            ChatEntryKind::Transient(_) => false,
            _ => true,
        }
    }
}

/// When a streamed entry was dispatched, first received and finished.
#[derive(Debug, Clone, Copy)]
pub struct EntryTiming {
    pub dispatched_at: Option<jiff::Timestamp>,
    pub first_token_at: Option<jiff::Timestamp>,
    pub finished_at: Option<jiff::Timestamp>,
}

impl EntryTiming {
    /// No timing recorded.
    pub fn none() -> (t: EntryTiming)
        ensures
            t.dispatched_at is None,
            t.first_token_at is None,
            t.finished_at is None,
    {
        EntryTiming { dispatched_at: None, first_token_at: None, finished_at: None }
    }

    /// Timing of an entry whose request was dispatched at `dispatched_at`.
    pub fn streamed(dispatched_at: jiff::Timestamp) -> (t: EntryTiming)
        ensures
            t.dispatched_at == Some(dispatched_at),
            t.first_token_at is None,
            t.finished_at is None,
    {
        EntryTiming { dispatched_at: Some(dispatched_at), first_token_at: None, finished_at: None }
    }

    /// Records now as the arrival of the first token.
    pub fn set_first_token(&mut self)
        ensures
            final(self).first_token_at is Some,
            final(self).dispatched_at == old(self).dispatched_at,
            final(self).finished_at == old(self).finished_at,
    {
        self.first_token_at = Some(timestamp_now());
    }

    /// Records now as the completion time.
    pub fn finish(&mut self)
        ensures
            final(self).finished_at is Some,
            final(self).dispatched_at == old(self).dispatched_at,
            final(self).first_token_at == old(self).first_token_at,
    {
        self.finished_at = Some(timestamp_now());
    }
}

/// A single entry of the conversation history.
#[derive(Debug, Clone)]
pub struct ChatEntry {
    /// Identifier, used to address the entry across history edits.
    pub id: ChatEntryId,
    /// What the entry holds.
    pub kind: ChatEntryKind,
    /// The current context override.
    pub context_override: ContextOverride,
    /// Every change of the override, oldest first.
    pub context_history: Vec<ContextChange>,
    /// Pin position, if pinned.
    pub pin_position: Option<PinPosition>,
    /// Streaming timestamps.
    pub timing: EntryTiming,
}

/// Whether the entry enters the assembled context.
pub open spec fn in_context(e: ChatEntry) -> bool {
    match e.context_override {
        ContextOverride::ForcedInclude => true,
        ContextOverride::ForcedExclude => false,
        ContextOverride::Default => included_by_default(e.kind),
    }
}

/// Whether the entry is an assistant entry with no text yet.
pub open spec fn empty_assistant(e: ChatEntry) -> bool {
    match e.kind {
        ChatEntryKind::Assistant(t) => t@.len() == 0,
        _ => false,
    }
}

/// A freshly built entry: default override, no history, unpinned, untimed.
pub open spec fn fresh_entry(e: ChatEntry, id: ChatEntryId, kind: ChatEntryKind) -> bool {
    &&& e.id == id
    &&& e.kind == kind
    &&& e.context_override == ContextOverride::Default
    &&& e.context_history@.len() == 0
    &&& e.pin_position is None
    &&& e.timing.dispatched_at is None
    &&& e.timing.first_token_at is None
    &&& e.timing.finished_at is None
}

/// `after` is `before` with its context override set to `value`: the
/// change is logged, with a record accepted by `logged`, only when the value
/// differs; nothing else about the entry moves.
pub open spec fn override_step(
    before: ChatEntry,
    after: ChatEntry,
    value: ContextOverride,
    logged: spec_fn(ContextChange) -> bool,
) -> bool {
    &&& after.context_override == value
    &&& after.id == before.id
    &&& after.kind == before.kind
    &&& after.pin_position == before.pin_position
    &&& after.timing == before.timing
    &&& if before.context_override == value {
        after.context_history@ == before.context_history@
    } else {
        &&& after.context_history@ == before.context_history@.push(after.context_history@.last())
        &&& after.context_history@.last().value == value
        &&& logged(after.context_history@.last())
    }
}

/// A logged change made by the user.
pub open spec fn by_user(c: ContextChange) -> bool {
    c.source is User
}

/// A logged change made internally under `label`.
pub open spec fn internal_labeled(c: ContextChange, label: Seq<char>) -> bool {
    c.source matches ChangeSource::Internal { label: l } && l@ == label
}

impl ChatEntry {
    /// An entry of the given kind with default override, unpinned.
    pub fn new(id: ChatEntryId, kind: ChatEntryKind) -> (e: ChatEntry)
        ensures
            fresh_entry(e, id, kind),
    {
        ChatEntry {
            id,
            kind,
            context_override: ContextOverride::Default,
            context_history: Vec::new(),
            pin_position: None,
            timing: EntryTiming::none(),
        }
    }

    /// A user message without attachments.
    pub fn user(id: ChatEntryId, text: &str) -> (e: ChatEntry)
        ensures
            e.kind matches ChatEntryKind::User { display, attachments } && display@ == text@
                && attachments@.len() == 0,
            e.id == id,
            e.context_override == ContextOverride::Default,
            e.context_history@.len() == 0,
            e.pin_position is None,
            e.timing.dispatched_at is None && e.timing.first_token_at is None && e.timing.finished_at is None,
    {
        ChatEntry::new(
            id,
            ChatEntryKind::User { display: String::from_str(text), attachments: Vec::new() },
        )
    }

    /// An assistant entry.
    pub fn assistant(id: ChatEntryId, text: &str) -> (e: ChatEntry)
        ensures
            e.kind matches ChatEntryKind::Assistant(t) && t@ == text@,
            e.id == id,
            e.context_override == ContextOverride::Default,
            e.context_history@.len() == 0,
            e.pin_position is None,
            e.timing.dispatched_at is None && e.timing.first_token_at is None && e.timing.finished_at is None,
    {
        ChatEntry::new(id, ChatEntryKind::Assistant(String::from_str(text)))
    }

    /// A thinking entry.
    pub fn thinking(id: ChatEntryId, text: &str) -> (e: ChatEntry)
        ensures
            e.kind matches ChatEntryKind::Thinking(t) && t@ == text@,
            e.id == id,
            e.context_override == ContextOverride::Default,
            e.context_history@.len() == 0,
            e.pin_position is None,
            e.timing.dispatched_at is None && e.timing.first_token_at is None && e.timing.finished_at is None,
    {
        ChatEntry::new(id, ChatEntryKind::Thinking(String::from_str(text)))
    }

    /// A system entry.
    pub fn system(id: ChatEntryId, text: &str) -> (e: ChatEntry)
        ensures
            e.kind matches ChatEntryKind::System(t) && t@ == text@,
            e.id == id,
            e.context_override == ContextOverride::Default,
            e.context_history@.len() == 0,
            e.pin_position is None,
            e.timing.dispatched_at is None && e.timing.first_token_at is None && e.timing.finished_at is None,
    {
        ChatEntry::new(id, ChatEntryKind::System(String::from_str(text)))
    }

    /// An error entry.
    pub fn error(id: ChatEntryId, text: String) -> (e: ChatEntry)
        ensures
            e.kind == ChatEntryKind::Error(text),
            e.id == id,
            e.context_override == ContextOverride::Default,
            e.context_history@.len() == 0,
            e.pin_position is None,
            e.timing.dispatched_at is None && e.timing.first_token_at is None && e.timing.finished_at is None,
    {
        ChatEntry::new(id, ChatEntryKind::Error(text))
    }

    /// A transient, display-only entry.
    pub fn transient(id: ChatEntryId, text: String) -> (e: ChatEntry)
        ensures
            e.kind == ChatEntryKind::Transient(text),
            e.id == id,
            e.context_override == ContextOverride::Default,
            e.context_history@.len() == 0,
            e.pin_position is None,
            e.timing.dispatched_at is None && e.timing.first_token_at is None && e.timing.finished_at is None,
    {
        ChatEntry::new(id, ChatEntryKind::Transient(text))
    }

    /// A tool call entry.
    pub fn tool_call(id: ChatEntryId, call_id: &str, name: &str, arguments: &str) -> (e: ChatEntry)
        ensures
            e.kind matches ChatEntryKind::ToolCall { id: ci, name: n, arguments: a } && ci@
                == call_id@ && n@ == name@ && a@ == arguments@,
            e.id == id,
            e.context_override == ContextOverride::Default,
            e.context_history@.len() == 0,
            e.pin_position is None,
            e.timing.dispatched_at is None && e.timing.first_token_at is None && e.timing.finished_at is None,
    {
        ChatEntry::new(
            id,
            ChatEntryKind::ToolCall {
                id: String::from_str(call_id),
                name: String::from_str(name),
                arguments: String::from_str(arguments),
            },
        )
    }

    /// A tool result entry without truncation.
    pub fn tool_result(
        id: ChatEntryId,
        call_id: &str,
        name: &str,
        content: &str,
        status: ToolResultStatus,
    ) -> (e: ChatEntry)
        ensures
            e.kind matches ChatEntryKind::ToolResult {
                id: ci,
                name: n,
                content: c,
                status: s,
                full_content: fc,
                truncation: tr,
                pin_position: pp,
            } && ci@ == call_id@ && n@ == name@ && c@ == content@ && s == status && fc is None
                && tr is None && pp is None,
            e.id == id,
            e.context_override == ContextOverride::Default,
            e.context_history@.len() == 0,
            e.pin_position is None,
            e.timing.dispatched_at is None && e.timing.first_token_at is None && e.timing.finished_at is None,
    {
        ChatEntry::new(
            id,
            ChatEntryKind::ToolResult {
                id: String::from_str(call_id),
                name: String::from_str(name),
                content: String::from_str(content),
                status,
                full_content: None,
                truncation: None,
                pin_position: None,
            },
        )
    }

    /// A tool result entry whose content was truncated from `full_content`.
    pub fn tool_result_truncated(
        id: ChatEntryId,
        call_id: &str,
        name: &str,
        content: String,
        full_content: String,
        status: ToolResultStatus,
        truncation: TruncationMeta,
    ) -> (e: ChatEntry)
        ensures
            e.kind matches ChatEntryKind::ToolResult {
                id: ci,
                name: n,
                content: c,
                status: s,
                full_content: fc,
                truncation: tr,
                pin_position: pp,
            } && ci@ == call_id@ && n@ == name@ && c == content && s == status && fc == Some(
                full_content,
            ) && tr == Some(truncation) && pp is None,
            e.id == id,
            e.context_override == ContextOverride::Default,
            e.context_history@.len() == 0,
            e.pin_position is None,
            e.timing.dispatched_at is None && e.timing.first_token_at is None && e.timing.finished_at is None,
    {
        ChatEntry::new(
            id,
            ChatEntryKind::ToolResult {
                id: String::from_str(call_id),
                name: String::from_str(name),
                content,
                status,
                full_content: Some(full_content),
                truncation: Some(truncation),
                pin_position: None,
            },
        )
    }

    /// The same entry pinned at `position`.
    pub fn with_pin(self, position: PinPosition) -> (e: ChatEntry)
        ensures
            e == (ChatEntry { pin_position: Some(position), ..self }),
    {
        ChatEntry { pin_position: Some(position), ..self }
    }

    /// The same entry with its override set directly, without recording a
    /// change in its history.
    pub fn with_context_override(self, value: ContextOverride) -> (e: ChatEntry)
        ensures
            e == (ChatEntry { context_override: value, ..self }),
    {
        ChatEntry { context_override: value, ..self }
    }

    /// The current context override.
    pub fn context_override(&self) -> (v: ContextOverride)
        ensures
            v == self.context_override,
    {
        self.context_override
    }

    /// Sets the context override, recording the change and its source.
    /// Returns `false`, changing nothing, when the override already has that
    /// value.
    pub fn apply_context_override(&mut self, value: ContextOverride, source: ChangeSource) -> (changed: bool)
        ensures
            changed == (old(self).context_override != value),
            final(self).context_override == value,
            final(self).id == old(self).id,
            final(self).kind == old(self).kind,
            final(self).pin_position == old(self).pin_position,
            final(self).timing == old(self).timing,
            !changed ==> final(self).context_history@ == old(self).context_history@,
            changed ==> final(self).context_history@ == old(self).context_history@.push(
                ContextChange { value, source },
            ),
    {
        if self.context_override == value {
            return false;
        }
        self.context_override = value;
        self.context_history.push(ContextChange { value, source });
        true
    }

    /// Whether the entry enters the assembled context.
    pub fn is_in_context(&self) -> (b: bool)
        ensures
            b == in_context(*self),
    {
        match self.context_override {
            ContextOverride::ForcedInclude => true,
            ContextOverride::ForcedExclude => false,
            ContextOverride::Default => self.kind.is_included_by_default(),
        }
    }

    /// Whether the entry is pinned.
    pub fn is_pinned(&self) -> (b: bool)
        ensures
            b == self.pin_position is Some,
    {
        self.pin_position.is_some()
    }

    /// Whether the entry is an assistant entry with no text yet.
    pub fn is_empty_assistant(&self) -> (b: bool)
        ensures
            b == empty_assistant(*self),
    {
        match &self.kind {
            ChatEntryKind::Assistant(t) => t.as_str().is_empty(),
            _ => false,
        }
    }

    /// Whether the user explicitly excluded the entry: the override is
    /// `ForcedExclude` and the latest recorded change came from the user.
    pub fn is_user_force_excluded(&self) -> (b: bool)
        ensures
            b == (self.context_override == ContextOverride::ForcedExclude
                && self.context_history@.len() > 0 && self.context_history@.last().source is User),
    {
        if self.context_override != ContextOverride::ForcedExclude {
            return false;
        }
        let n = self.context_history.len();
        if n == 0 {
            return false;
        }
        match self.context_history[n - 1].source {
            ChangeSource::User => true,
            _ => false,
        }
    }
}

} // verus!
