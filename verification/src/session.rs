//! The state of one chat session: its history, phase machine, queue and
//! presentation state.
use vstd::prelude::*;
use vstd::string::*;
use std::collections::VecDeque;
use crate::idset::IdSet;
use crate::clock::timestamp_now;
use crate::entry::{ChangeSource, ChatEntry, ChatEntryId, ContextOverride, PinPosition};
use crate::ids::SessionId;
use crate::lifecycle::{after_setup, after_teardown, LifecycleScriptState, SessionState};
use crate::machine::SessionPhaseMachine;
use crate::phase::PhaseKind;
use crate::profile::{ModelSelection, SessionProfile};
use crate::strset::StringSet;
use crate::token_stats::TokenRecord;

verus! {

broadcast use vstd::std_specs::hash::group_hash_axioms;

/// Error of a streaming operation.
#[derive(Debug, Clone, Copy, PartialEq, Eq, Structural)]
pub enum StreamingError {
    /// No streaming entry index is set.
    NoStreamingEntry,
    /// The streaming entry is not an assistant entry.
    NotAssistantEntry,
    /// No thinking entry index is set.
    NoThinkingEntry,
    /// No tool call is tracked for this stream index.
    NoToolCallIndex { index: usize },
    /// The token ledger is empty.
    EmptyLedger,
}

/// An item waiting in the turn dispatch queue.
#[derive(Debug, Clone)]
pub enum QueueItem {
    /// A user message to send as its own turn.
    UserMessage(ChatEntry),
    /// Continue the tool loop.
    ToolContinuation,
}

/// User text submitted while a turn is running, drained into one message at
/// the next prompt-assembly boundary.
#[derive(Debug, Clone)]
pub struct SteeringBuffer {
    pub fragments: Vec<String>,
}

impl SteeringBuffer {
    /// An empty buffer.
    pub fn new() -> (b: SteeringBuffer)
        ensures
            b.fragments@.len() == 0,
    {
        SteeringBuffer { fragments: Vec::new() }
    }

    /// Appends a fragment.
    pub fn push_fragment(&mut self, text: String)
        ensures
            final(self).fragments@ == old(self).fragments@.push(text),
    {
        self.fragments.push(text);
    }

    /// Takes every fragment, oldest first, leaving the buffer empty.
    pub fn drain_fragments(&mut self) -> (r: Vec<String>)
        ensures
            r@ == old(self).fragments@,
            final(self).fragments@.len() == 0,
    {
        let mut out = Vec::new();
        std::mem::swap(&mut out, &mut self.fragments);
        out
    }
}

/// The text of the message being composed.
#[derive(Debug, Clone)]
pub struct ChatInputBoxState {
    pub text: String,
}

impl ChatInputBoxState {
    /// An empty input box.
    pub fn new() -> (s: ChatInputBoxState)
        ensures
            s.text@.len() == 0,
    {
        ChatInputBoxState { text: String::new() }
    }

    /// Replaces the whole text.
    pub fn replace_all(&mut self, text: String)
        ensures
            final(self).text == text,
    {
        self.text = text;
    }
}

/// A position in the rendered chat log: one history entry, or a collapsed
/// run of `len` ignored entries starting at history index `start`.
#[derive(Debug, Clone, Copy, PartialEq, Eq, Structural)]
pub enum VisualItem {
    Entry(usize),
    CollapsedIgnoredBlock { start: usize, len: usize },
}

/// Scroll position captured before browsing pinned entries.
#[derive(Debug, Clone, Copy, PartialEq, Eq, Structural)]
pub struct SavedHistoryPosition {
    pub scroll_offset: Option<u16>,
    pub selected_cursor_id: Option<ChatEntryId>,
}

/// Run state of a plugin attached to a session.
#[derive(Debug, Clone, Copy, PartialEq, Eq, Structural)]
pub enum PluginRunState {
    Idle,
    Running,
}

/// A plugin attached to a session.
#[derive(Debug, Clone)]
pub struct AttachedPlugin {
    pub name: String,
    pub run_state: PluginRunState,
}

/// A change of history submitted by a background worker, addressed by
/// entry id so it stays valid while history moves.
#[derive(Debug, Clone)]
pub enum HistoryMutation {
    /// Set an entry's context override.
    SetContextOverride { entry_id: ChatEntryId, value: ContextOverride, source: ChangeSource },
    /// Insert an entry after another one (`None`: at the start).
    InsertEntry { after_entry_id: Option<ChatEntryId>, entry: ChatEntry },
    /// Pin an entry.
    PinEntry { entry_id: ChatEntryId, position: PinPosition },
    /// Unpin an entry.
    UnpinEntry { entry_id: ChatEntryId },
}

/// Runtime-only state, meaningless across restarts.
#[derive(Debug, Clone)]
pub struct SessionCoreEphemeral {
    /// Validated phase machine.
    pub machine: SessionPhaseMachine,
    /// Turn dispatch queue.
    pub message_queue: VecDeque<QueueItem>,
    /// Size in tokens of the last assembled prompt.
    pub cached_context_size: Option<u32>,
    /// Number of background operations in progress.
    pub busy_count: usize,
    /// History mutation batches waiting for a safe application point.
    pub pending_mutations: Vec<Vec<HistoryMutation>>,
    /// Next id the session mints for entries it creates itself.
    pub next_entry_id: u64,
}

/// Persisted session state.
#[derive(Debug, Clone)]
pub struct SessionCore {
    pub session_id: SessionId,
    /// `None` until the first user message.
    pub title: Option<String>,
    pub updated_at: jiff::Timestamp,
    pub created_at: jiff::Timestamp,
    /// All entries of the conversation, oldest first.
    pub history: Vec<ChatEntry>,
    pub profile: SessionProfile,
    /// Working directory for tool execution.
    pub cwd: String,
    /// One record per request/response pair.
    pub token_ledger: Vec<TokenRecord>,
    /// The session this one was forked from.
    pub parent_session: Option<SessionId>,
    /// Blob storage for other subsystems: name and JSON text.
    pub blobs: Vec<(String, String)>,
    pub lifecycle_name: Option<String>,
    pub lifecycle_args: Vec<String>,
    pub session_state: SessionState,
    pub lifecycle_script_state: LifecycleScriptState,
    /// Program-initiated session (plugin, subagent, judge).
    pub is_automated: bool,
    /// Whether to persist the session at all.
    pub persist: bool,
    /// Whether the user meaningfully interacted with the session.
    pub has_interacted: bool,
    pub attached_plugins: Vec<AttachedPlugin>,
    pub ephemeral: SessionCoreEphemeral,
}

/// Presentation state of a session.
#[derive(Debug, Clone)]
pub struct SessionUi {
    pub chat_input: ChatInputBoxState,
    pub steering_buffer: SteeringBuffer,
    /// Lines skipped from the top; `None` means following the bottom.
    pub scroll_offset: Option<u16>,
    /// The selected entry, by id.
    pub selected_cursor_id: Option<ChatEntryId>,
    /// Largest scroll offset of the last render.
    pub last_max_offset: u16,
    /// Scroll offset actually displayed by the last render.
    pub rendered_scroll_offset: u16,
    /// Per visual item, its `(start, end)` wrapped-line range.
    pub entry_line_ranges: Vec<(u16, u16)>,
    /// Height of the render area.
    pub viewport_height: u16,
    /// Blank lines prepended for bottom alignment.
    pub blank_count: u16,
    /// Ids of tool result entries shown in full.
    pub expanded_entries: IdSet,
    pub saved_history_position: Option<SavedHistoryPosition>,
    /// Ids of the first entries of ignored blocks that are shown expanded.
    pub shown_ignored_blocks: IdSet,
    /// The visual items of the last render.
    pub visual_items: Vec<VisualItem>,
    /// An active ignore sweep: time of the last press and the override to apply.
    pub ignore_sweep: Option<(std::time::Instant, ContextOverride)>,
}

/// The state of a single chat session.
#[derive(Debug, Clone)]
pub struct ChatSessionState {
    pub core: SessionCore,
    pub ui: SessionUi,
}

/// The first position of an entry with id `id`, if any.
pub open spec fn find_pos(h: Seq<ChatEntry>, id: ChatEntryId) -> Option<int> {
    if exists|i: int| is_first_pos(h, id, i) {
        Some(choose|i: int| is_first_pos(h, id, i))
    } else {
        None
    }
}

/// `i` is the first position of an entry with id `id`.
pub open spec fn is_first_pos(h: Seq<ChatEntry>, id: ChatEntryId, i: int) -> bool {
    &&& 0 <= i < h.len()
    &&& h[i].id == id
    &&& forall|j: int| 0 <= j < i ==> (#[trigger] h[j]).id != id
}

/// The first position is determined by the history.
pub proof fn lemma_find_pos(h: Seq<ChatEntry>, id: ChatEntryId, i: int)
    requires
        is_first_pos(h, id, i),
    ensures
        find_pos(h, id) == Some(i),
{
    let j = choose|j: int| is_first_pos(h, id, j);
    if j < i {
        assert(h[j].id != id);
    }
    if i < j {
        assert(h[i].id != id);
    }
}

/// Whether the cursor is on the last history entry, or there is no cursor.
pub open spec fn cursor_at_last(h: Seq<ChatEntry>, cursor: Option<ChatEntryId>) -> bool {
    match cursor {
        None => true,
        Some(id) => h.len() > 0 && h.last().id == id,
    }
}

/// The next id to mint after an entry with id `id` joined the history:
/// past `id` when it was not below the counter.
pub open spec fn bumped_next_id(next: u64, id: ChatEntryId) -> u64 {
    if id.0 >= next && id.0 < u64::MAX {
        (id.0 + 1) as u64
    } else {
        next
    }
}

/// `t` is `s` after appending `e`: with smart auto-scroll, when the cursor
/// was on the last entry (or there was none) scrolling returns to the bottom
/// and the cursor moves to `e`; otherwise scroll and selection are kept.
pub open spec fn pushed_rel(s: ChatSessionState, t: ChatSessionState, e: ChatEntry) -> bool {
    &&& t.core.history@ == s.core.history@.push(e)
    &&& t.ui == if cursor_at_last(s.core.history@, s.ui.selected_cursor_id) {
        SessionUi { scroll_offset: None, selected_cursor_id: Some(e.id), ..s.ui }
    } else {
        s.ui
    }
    &&& t.core.ephemeral == (SessionCoreEphemeral {
        next_entry_id: bumped_next_id(s.core.ephemeral.next_entry_id, e.id),
        ..s.core.ephemeral
    })
    &&& t.core == (SessionCore { history: t.core.history, ephemeral: t.core.ephemeral, ..s.core })
}

/// A new session with the default profile: empty history, idle, nothing
/// selected, following the bottom.
pub open spec fn fresh_session(s: ChatSessionState) -> bool {
    &&& s.core.history@.len() == 0
    &&& s.core.profile.persona_name@ == crate::profile::DEFAULT_PERSONA_NAME@
    &&& s.core.ephemeral.machine.phase_view() is Idle
    &&& !s.core.ephemeral.machine.tool_loop_disabled_view()
    &&& s.core.ephemeral.message_queue@.len() == 0
    &&& s.core.ephemeral.busy_count == 0
    &&& s.core.ephemeral.pending_mutations@.len() == 0
    &&& s.core.title is None
    &&& s.core.parent_session is None
    &&& s.core.token_ledger@.len() == 0
    &&& s.core.persist
    &&& !s.core.has_interacted
    &&& !s.core.is_automated
    &&& s.ui.scroll_offset is None
    &&& s.ui.selected_cursor_id is None
    &&& s.ui.visual_items@.len() == 0
    &&& s.ui.expanded_entries@ == Set::<u64>::empty()
    &&& s.ui.shown_ignored_blocks@ == Set::<u64>::empty()
    &&& session_wf(s)
}

/// The sets held by the session never store an element twice.
pub open spec fn session_wf(s: ChatSessionState) -> bool {
    &&& s.ui.expanded_entries.wf()
    &&& s.ui.shown_ignored_blocks.wf()
    &&& s.core.profile.disabled_tools.wf()
    &&& s.core.profile.disabled_skills.wf()
}

/// The working directory a session has when none is recorded: the current
/// directory.
pub fn default_cwd() -> (cwd: String)
    ensures
        cwd@ == "."@,
{
    String::from_str(".")
}

/// Whether the session qualifies for persistence.
pub open spec fn persistable(c: SessionCore) -> bool {
    c.persist && (c.lifecycle_name is Some || c.parent_session is Some || c.has_interacted)
}

impl ChatSessionState {
    /// A new session with empty history, idle, with the given profile.
    pub fn new_with_profile(profile: SessionProfile) -> (s: ChatSessionState)
        ensures
            s.core.history@.len() == 0,
            s.core.profile == profile,
            s.core.ephemeral.machine.phase_view() is Idle,
            !s.core.ephemeral.machine.tool_loop_disabled_view(),
            s.core.ephemeral.message_queue@.len() == 0,
            s.core.ephemeral.busy_count == 0,
            s.core.ephemeral.pending_mutations@.len() == 0,
            s.core.title is None,
            s.core.parent_session is None,
            s.core.token_ledger@.len() == 0,
            s.core.session_state == SessionState::Loaded,
            s.core.lifecycle_script_state == LifecycleScriptState::NothingRan,
            s.core.lifecycle_name is None,
            !s.core.is_automated,
            s.core.persist,
            !s.core.has_interacted,
            s.core.cwd@ == "."@,
            s.ui.scroll_offset is None,
            s.ui.selected_cursor_id is None,
            s.ui.visual_items@.len() == 0,
            s.ui.entry_line_ranges@.len() == 0,
            s.ui.saved_history_position is None,
            s.ui.ignore_sweep is None,
            s.ui.expanded_entries@ == Set::<u64>::empty(),
            s.ui.shown_ignored_blocks@ == Set::<u64>::empty(),
            profile.disabled_tools.wf() && profile.disabled_skills.wf() ==> session_wf(s),
    {
        let now = timestamp_now();
        ChatSessionState {
            core: SessionCore {
                session_id: 0,
                title: None,
                updated_at: now,
                created_at: now,
                history: Vec::new(),
                profile,
                cwd: default_cwd(),
                token_ledger: Vec::new(),
                parent_session: None,
                blobs: Vec::new(),
                lifecycle_name: None,
                lifecycle_args: Vec::new(),
                session_state: SessionState::Loaded,
                lifecycle_script_state: LifecycleScriptState::NothingRan,
                is_automated: false,
                persist: true,
                has_interacted: false,
                attached_plugins: Vec::new(),
                ephemeral: SessionCoreEphemeral {
                    machine: SessionPhaseMachine::new(),
                    message_queue: VecDeque::new(),
                    cached_context_size: None,
                    busy_count: 0,
                    pending_mutations: Vec::new(),
                    next_entry_id: 0,
                },
            },
            ui: SessionUi {
                chat_input: ChatInputBoxState::new(),
                steering_buffer: SteeringBuffer::new(),
                scroll_offset: None,
                selected_cursor_id: None,
                last_max_offset: 0,
                rendered_scroll_offset: 0,
                entry_line_ranges: Vec::new(),
                viewport_height: 0,
                blank_count: 0,
                expanded_entries: IdSet::new(),
                saved_history_position: None,
                shown_ignored_blocks: IdSet::new(),
                visual_items: Vec::new(),
                ignore_sweep: None,
            },
        }
    }

    /// A new session with the default profile.
    pub fn new() -> (s: ChatSessionState)
        ensures
            fresh_session(s),
    {
        ChatSessionState::new_with_profile(SessionProfile::default_profile())
    }

    /// The history, oldest entry first.
    pub fn history(&self) -> (h: &[ChatEntry])
        ensures
            h@ == self.core.history@,
    {
        self.core.history.as_slice()
    }

    /// Whether the history has no entries.
    pub fn is_empty(&self) -> (b: bool)
        ensures
            b == (self.core.history@.len() == 0),
    {
        self.core.history.len() == 0
    }

    /// The persona name of this session.
    pub fn persona_name(&self) -> (s: &str)
        ensures
            s@ == self.core.profile.persona_name@,
    {
        self.core.profile.persona_name.as_str()
    }

    /// Sets the persona name.
    pub fn set_persona_name(&mut self, name: String)
        ensures
            final(self).core.profile == (SessionProfile { persona_name: name, ..old(self).core.profile }),
            final(self).ui == old(self).ui,
            final(self).core == (SessionCore { profile: final(self).core.profile, ..old(self).core }),
    {
        self.core.profile.persona_name = name;
    }

    /// Whether the session is program-initiated.
    pub fn is_automated(&self) -> (b: bool)
        ensures
            b == self.core.is_automated,
    {
        self.core.is_automated
    }

    /// Marks the session as meaningfully interacted with.
    pub fn mark_interacted(&mut self)
        ensures
            final(self).core == (SessionCore { has_interacted: true, ..old(self).core }),
            final(self).ui == old(self).ui,
    {
        self.core.has_interacted = true;
    }

    /// Whether the user interacted with the session.
    pub fn has_interacted(&self) -> (b: bool)
        ensures
            b == self.core.has_interacted,
    {
        self.core.has_interacted
    }

    /// Whether the session should be persisted: never when marked transient;
    /// otherwise when it has a lifecycle, a parent, or user interaction.
    pub fn is_persistable(&self) -> (b: bool)
        ensures
            b == persistable(self.core),
    {
        if !self.core.persist {
            return false;
        }
        if self.core.lifecycle_name.is_some() {
            return true;
        }
        if self.core.parent_session.is_some() {
            return true;
        }
        if self.core.has_interacted {
            return true;
        }
        false
    }

    /// The position of the first entry with id `id`, if any.
    pub fn find_entry_index_by_id(&self, id: &ChatEntryId) -> (r: Option<usize>)
        ensures
            match r {
                Some(i) => find_pos(self.core.history@, *id) == Some(i as int),
                None => find_pos(self.core.history@, *id) is None,
            },
            match r {
                Some(i) => is_first_pos(self.core.history@, *id, i as int),
                None => forall|j: int|
                    0 <= j < self.core.history@.len() ==> (#[trigger] self.core.history@[j]).id != *id,
            },
    {
        let n = self.core.history.len();
        let mut i: usize = 0;
        while i < n
            invariant
                n == self.core.history@.len(),
                0 <= i <= n,
                forall|j: int| 0 <= j < i ==> (#[trigger] self.core.history@[j]).id != *id,
            decreases n - i,
        {
            if self.core.history[i].id == *id {
                proof {
                    lemma_find_pos(self.core.history@, *id, i as int);
                }
                return Some(i);
            }
            i = i + 1;
        }
        None
    }

    /// Mints a fresh id for an entry the session creates itself.
    pub fn fresh_entry_id(&mut self) -> (id: ChatEntryId)
        ensures
            id.0 == old(self).core.ephemeral.next_entry_id,
            final(self).core.ephemeral.next_entry_id == if id.0 < u64::MAX {
                (id.0 + 1) as u64
            } else {
                id.0
            },
            final(self).core == (SessionCore {
                ephemeral: SessionCoreEphemeral {
                    next_entry_id: final(self).core.ephemeral.next_entry_id,
                    ..old(self).core.ephemeral
                },
                ..old(self).core
            }),
            final(self).ui == old(self).ui,
    {
        let id = self.core.ephemeral.next_entry_id;
        if id < u64::MAX {
            self.core.ephemeral.next_entry_id = id + 1;
        }
        ChatEntryId(id)
    }

    /// Appends an entry and returns its index.
    ///
    /// Smart auto-scroll: when the cursor was on the previous last entry (or
    /// there was no cursor), scrolling returns to the bottom and the cursor
    /// moves to the new entry; otherwise scroll and selection are kept.
    pub fn push_entry(&mut self, entry: ChatEntry) -> (index: usize)
        requires
            old(self).core.history@.len() < usize::MAX,
        ensures
            index == old(self).core.history@.len(),
            pushed_rel(*old(self), *final(self), entry),
    {
        let was_at_last = match self.ui.selected_cursor_id {
            None => true,
            Some(id) => {
                let n = self.core.history.len();
                n > 0 && self.core.history[n - 1].id == id
            },
        };
        let index = self.core.history.len();
        let id = entry.id;
        if id.0 >= self.core.ephemeral.next_entry_id && id.0 < u64::MAX {
            self.core.ephemeral.next_entry_id = id.0 + 1;
        }
        self.core.history.push(entry);
        if was_at_last {
            self.ui.scroll_offset = None;
            self.ui.selected_cursor_id = Some(id);
        }
        index
    }

    /// Appends an entry the session creates itself, with a freshly minted id.
    pub fn push_new_entry(&mut self, entry: ChatEntry) -> (index: usize)
        requires
            old(self).core.history@.len() < usize::MAX,
        ensures
            index == old(self).core.history@.len(),
            ({
                let e = ChatEntry { id: ChatEntryId(old(self).core.ephemeral.next_entry_id), ..entry };
                let minted = ChatSessionState {
                    core: SessionCore {
                        ephemeral: SessionCoreEphemeral {
                            next_entry_id: final(self).core.ephemeral.next_entry_id,
                            ..old(self).core.ephemeral
                        },
                        ..old(self).core
                    },
                    ..*old(self)
                };
                &&& pushed_rel(minted, *final(self), e)
                &&& final(self).core.ephemeral.next_entry_id == if old(self).core.ephemeral.next_entry_id < u64::MAX {
                    (old(self).core.ephemeral.next_entry_id + 1) as u64
                } else {
                    old(self).core.ephemeral.next_entry_id
                }
            }),
    {
        let id = self.fresh_entry_id();
        self.push_entry(ChatEntry { id, ..entry })
    }
}

} // verus!
