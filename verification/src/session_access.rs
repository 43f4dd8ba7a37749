//! Plain accessors of a chat session's fields.
use vstd::prelude::*;
use vstd::string::*;
use std::collections::VecDeque;
use crate::clock::timestamp_now;
use crate::entry::ChatEntryId;
use crate::ids::SessionId;
use crate::lifecycle::{after_setup, after_teardown, LifecycleScriptState, SessionState};
use crate::phase::PhaseKind;
use crate::profile::{ModelSelection, SessionProfile};
use crate::session::{
    ChatInputBoxState, ChatSessionState, QueueItem, SavedHistoryPosition, SessionCore,
    SessionCoreEphemeral, SessionUi, SteeringBuffer, StreamingError, session_wf,
};
use crate::strset::StringSet;
use crate::token_stats::TokenRecord;

verus! {

/// `t` is `s` after saving its history position: a saved position is
/// kept; otherwise the scroll offset and cursor are saved.
pub open spec fn position_saved(s: ChatSessionState, t: ChatSessionState) -> bool {
    &&& t.core == s.core
    &&& t.ui == match s.ui.saved_history_position {
        Some(_) => s.ui,
        None => SessionUi {
            saved_history_position: Some(
                SavedHistoryPosition { scroll_offset: s.ui.scroll_offset, selected_cursor_id: s.ui.selected_cursor_id },
            ),
            ..s.ui
        },
    }
}

/// `t` is `s` after restoring its history position: a saved position
/// gives back its scroll offset and cursor and is consumed; with none,
/// nothing changes.
pub open spec fn position_restored(s: ChatSessionState, t: ChatSessionState) -> bool {
    &&& t.core == s.core
    &&& t.ui == match s.ui.saved_history_position {
        Some(p) => SessionUi {
            scroll_offset: p.scroll_offset,
            selected_cursor_id: p.selected_cursor_id,
            saved_history_position: None,
            ..s.ui
        },
        None => s.ui,
    }
}

/// Saving the history position and restoring it later gives back the
/// scroll offset and cursor of the moment of saving, whatever scrolling and
/// selection happened in between (`moved` keeps the saved position), and
/// leaves no position saved; a second restore then changes nothing.
pub proof fn lemma_save_then_restore(
    s: ChatSessionState,
    saved: ChatSessionState,
    moved: ChatSessionState,
    restored: ChatSessionState,
    again: ChatSessionState,
)
    requires
        s.ui.saved_history_position is None,
        position_saved(s, saved),
        moved.ui.saved_history_position == saved.ui.saved_history_position,
        position_restored(moved, restored),
        position_restored(restored, again),
    ensures
        restored.ui.scroll_offset == s.ui.scroll_offset,
        restored.ui.selected_cursor_id == s.ui.selected_cursor_id,
        restored.ui.saved_history_position is None,
        again == restored,
{
}

impl ChatSessionState {
    /// The input box of this session.
    pub fn chat_input(&self) -> (r: &ChatInputBoxState)
        ensures
            *r == self.ui.chat_input,
    {
        &self.ui.chat_input
    }

    /// Mutable access to the input box.
    pub fn chat_input_mut(&mut self) -> (r: &mut ChatInputBoxState)
        ensures
            *r == old(self).ui.chat_input,
            *final(self) == (ChatSessionState {
                ui: SessionUi { chat_input: *final(r), ..old(self).ui },
                ..*old(self)
            }),
    {
        &mut self.ui.chat_input
    }

    /// The steering buffer of this session.
    pub fn steering_buffer(&self) -> (r: &SteeringBuffer)
        ensures
            *r == self.ui.steering_buffer,
    {
        &self.ui.steering_buffer
    }

    /// Mutable access to the steering buffer.
    pub fn steering_buffer_mut(&mut self) -> (r: &mut SteeringBuffer)
        ensures
            *r == old(self).ui.steering_buffer,
            *final(self) == (ChatSessionState {
                ui: SessionUi { steering_buffer: *final(r), ..old(self).ui },
                ..*old(self)
            }),
    {
        &mut self.ui.steering_buffer
    }

    /// The session profile.
    pub fn profile(&self) -> (r: &SessionProfile)
        ensures
            *r == self.core.profile,
    {
        &self.core.profile
    }

    /// Mutable access to the session profile.
    pub fn profile_mut(&mut self) -> (r: &mut SessionProfile)
        ensures
            *r == old(self).core.profile,
            *final(self) == (ChatSessionState {
                core: SessionCore { profile: *final(r), ..old(self).core },
                ..*old(self)
            }),
    {
        &mut self.core.profile
    }

    /// Sets the model selection.
    pub fn set_model(&mut self, model: ModelSelection)
        ensures
            final(self).core.profile == (SessionProfile { model: model, ..old(self).core.profile }),
            final(self).core == (SessionCore { profile: final(self).core.profile, ..old(self).core }),
            final(self).ui == old(self).ui,
    {
        self.core.profile.model = model;
    }

    /// The model selection of this session.
    pub fn model_selection(&self) -> (r: &ModelSelection)
        ensures
            *r == self.core.profile.model,
    {
        &self.core.profile.model
    }

    /// The model selection of this session.
    pub fn model(&self) -> (r: &ModelSelection)
        ensures
            *r == self.core.profile.model,
    {
        &self.core.profile.model
    }

    /// Whether a tool is enabled: it is unless its name is disabled.
    pub fn is_tool_enabled(&self, tool_name: &str) -> (b: bool)
        ensures
            b == !self.core.profile.disabled_tools@.contains(tool_name@),
    {
        !self.core.profile.disabled_tools.contains(tool_name)
    }

    /// The disabled tool names.
    pub fn disabled_tools(&self) -> (r: &StringSet)
        ensures
            *r == self.core.profile.disabled_tools,
    {
        &self.core.profile.disabled_tools
    }

    /// Replaces the disabled tool names.
    pub fn set_disabled_tools(&mut self, tools: StringSet)
        ensures
            final(self).core.profile == (SessionProfile { disabled_tools: tools, ..old(self).core.profile }),
            final(self).core == (SessionCore { profile: final(self).core.profile, ..old(self).core }),
            final(self).ui == old(self).ui,
    {
        self.core.profile.disabled_tools = tools;
    }

    /// Whether a skill is enabled: it is unless its name is disabled.
    pub fn is_skill_enabled(&self, skill_name: &str) -> (b: bool)
        ensures
            b == !self.core.profile.disabled_skills@.contains(skill_name@),
    {
        !self.core.profile.disabled_skills.contains(skill_name)
    }

    /// The disabled skill names.
    pub fn disabled_skills(&self) -> (r: &StringSet)
        ensures
            *r == self.core.profile.disabled_skills,
    {
        &self.core.profile.disabled_skills
    }

    /// Replaces the disabled skill names.
    pub fn set_disabled_skills(&mut self, skills: StringSet)
        ensures
            final(self).core.profile == (SessionProfile { disabled_skills: skills, ..old(self).core.profile }),
            final(self).core == (SessionCore { profile: final(self).core.profile, ..old(self).core }),
            final(self).ui == old(self).ui,
    {
        self.core.profile.disabled_skills = skills;
    }

    /// The current phase kind.
    pub fn phase(&self) -> (k: PhaseKind)
        ensures
            k == self.core.ephemeral.machine.kind_view(),
    {
        self.core.ephemeral.machine.kind()
    }

    /// The queued turn items, front first.
    pub fn queue(&self) -> (r: &VecDeque<QueueItem>)
        ensures
            r@ == self.core.ephemeral.message_queue@,
    {
        &self.core.ephemeral.message_queue
    }

    /// Number of queued items.
    pub fn queue_len(&self) -> (n: usize)
        ensures
            n == self.core.ephemeral.message_queue@.len(),
    {
        self.core.ephemeral.message_queue.len()
    }

    /// Appends an item at the back of the queue.
    pub fn enqueue(&mut self, item: QueueItem)
        ensures
            final(self).core.ephemeral.message_queue@ == old(self).core.ephemeral.message_queue@.push(item),
            final(self).core.ephemeral == (SessionCoreEphemeral {
                message_queue: final(self).core.ephemeral.message_queue,
                ..old(self).core.ephemeral
            }),
            final(self).core == (SessionCore { ephemeral: final(self).core.ephemeral, ..old(self).core }),
            final(self).ui == old(self).ui,
    {
        self.core.ephemeral.message_queue.push_back(item);
    }

    /// Puts an item at the front of the queue.
    pub fn enqueue_front(&mut self, item: QueueItem)
        ensures
            final(self).core.ephemeral.message_queue@ == seq![item] + old(self).core.ephemeral.message_queue@,
            final(self).core.ephemeral == (SessionCoreEphemeral {
                message_queue: final(self).core.ephemeral.message_queue,
                ..old(self).core.ephemeral
            }),
            final(self).core == (SessionCore { ephemeral: final(self).core.ephemeral, ..old(self).core }),
            final(self).ui == old(self).ui,
    {
        self.core.ephemeral.message_queue.push_front(item);
    }

    /// Takes the front item of the queue.
    pub fn dequeue(&mut self) -> (r: Option<QueueItem>)
        ensures
            old(self).core.ephemeral.message_queue@.len() == 0 ==> r is None
                && final(self).core.ephemeral.message_queue@ == old(self).core.ephemeral.message_queue@,
            old(self).core.ephemeral.message_queue@.len() > 0 ==> r == Some(
                old(self).core.ephemeral.message_queue@[0],
            ) && final(self).core.ephemeral.message_queue@
                == old(self).core.ephemeral.message_queue@.drop_first(),
            final(self).core.ephemeral == (SessionCoreEphemeral {
                message_queue: final(self).core.ephemeral.message_queue,
                ..old(self).core.ephemeral
            }),
            final(self).core == (SessionCore { ephemeral: final(self).core.ephemeral, ..old(self).core }),
            final(self).ui == old(self).ui,
    {
        self.core.ephemeral.message_queue.pop_front()
    }

    /// Takes every queued item, front first, leaving the queue empty.
    pub fn drain_queue(&mut self) -> (r: VecDeque<QueueItem>)
        ensures
            r@ == old(self).core.ephemeral.message_queue@,
            final(self).core.ephemeral.message_queue@.len() == 0,
            final(self).core.ephemeral == (SessionCoreEphemeral {
                message_queue: final(self).core.ephemeral.message_queue,
                ..old(self).core.ephemeral
            }),
            final(self).core == (SessionCore { ephemeral: final(self).core.ephemeral, ..old(self).core }),
            final(self).ui == old(self).ui,
    {
        let mut out = VecDeque::new();
        std::mem::swap(&mut out, &mut self.core.ephemeral.message_queue);
        out
    }

    /// Starts one more background operation.
    pub fn begin_busy(&mut self)
        requires
            old(self).core.ephemeral.busy_count < usize::MAX,
        ensures
            final(self).core.ephemeral == (SessionCoreEphemeral {
                busy_count: (old(self).core.ephemeral.busy_count + 1) as usize,
                ..old(self).core.ephemeral
            }),
            final(self).core == (SessionCore { ephemeral: final(self).core.ephemeral, ..old(self).core }),
            final(self).ui == old(self).ui,
    {
        self.core.ephemeral.busy_count = self.core.ephemeral.busy_count + 1;
    }

    /// One background operation completed: the count drops by one, not
    /// below zero. Returns the new count.
    pub fn complete_busy(&mut self) -> (n: usize)
        ensures
            n == if old(self).core.ephemeral.busy_count > 0 {
                (old(self).core.ephemeral.busy_count - 1) as usize
            } else {
                0
            },
            final(self).core.ephemeral == (SessionCoreEphemeral { busy_count: n, ..old(self).core.ephemeral }),
            final(self).core == (SessionCore { ephemeral: final(self).core.ephemeral, ..old(self).core }),
            final(self).ui == old(self).ui,
    {
        self.core.ephemeral.busy_count = self.core.ephemeral.busy_count.saturating_sub(1);
        self.core.ephemeral.busy_count
    }

    /// Cancels every tracked background operation.
    pub fn cancel_busy(&mut self)
        ensures
            final(self).core.ephemeral == (SessionCoreEphemeral { busy_count: 0, ..old(self).core.ephemeral }),
            final(self).core == (SessionCore { ephemeral: final(self).core.ephemeral, ..old(self).core }),
            final(self).ui == old(self).ui,
    {
        self.core.ephemeral.busy_count = 0;
    }

    /// Number of background operations in progress.
    pub fn busy_count(&self) -> (n: usize)
        ensures
            n == self.core.ephemeral.busy_count,
    {
        self.core.ephemeral.busy_count
    }

    /// Whether any background operation is in progress.
    pub fn is_busy(&self) -> (b: bool)
        ensures
            b == (self.core.ephemeral.busy_count > 0),
    {
        self.core.ephemeral.busy_count > 0
    }

    /// The requested scroll offset; `None` follows the bottom.
    pub fn scroll_offset(&self) -> (r: Option<u16>)
        ensures
            r == self.ui.scroll_offset,
    {
        self.ui.scroll_offset
    }

    /// Whether the log follows the bottom.
    pub fn is_at_bottom(&self) -> (b: bool)
        ensures
            b == self.ui.scroll_offset is None,
    {
        self.ui.scroll_offset.is_none()
    }

    /// Follows the bottom again.
    pub fn reset_scroll(&mut self)
        ensures
            final(self).ui == (SessionUi { scroll_offset: None, ..old(self).ui }),
            final(self).core == old(self).core,
    {
        self.ui.scroll_offset = None;
    }

    /// Scrolls to the very top.
    pub fn scroll_to_top(&mut self)
        ensures
            final(self).ui == (SessionUi { scroll_offset: Some(0u16), ..old(self).ui }),
            final(self).core == old(self).core,
    {
        self.ui.scroll_offset = Some(0);
    }

    /// Scrolls to the bottom (follows it).
    pub fn scroll_to_bottom(&mut self)
        ensures
            final(self).ui == (SessionUi { scroll_offset: None, ..old(self).ui }),
            final(self).core == old(self).core,
    {
        self.ui.scroll_offset = None;
    }

    /// Records the largest scroll offset of the last render.
    pub fn set_last_max_offset(&mut self, max_offset: u16)
        ensures
            final(self).ui == (SessionUi { last_max_offset: max_offset, ..old(self).ui }),
            final(self).core == old(self).core,
    {
        self.ui.last_max_offset = max_offset;
    }

    /// Records the scroll offset actually displayed by the last render.
    pub fn set_rendered_scroll_offset(&mut self, offset: u16)
        ensures
            final(self).ui == (SessionUi { rendered_scroll_offset: offset, ..old(self).ui }),
            final(self).core == old(self).core,
    {
        self.ui.rendered_scroll_offset = offset;
    }

    /// Records the wrapped-line range of each visual item.
    pub fn set_entry_line_ranges(&mut self, ranges: Vec<(u16, u16)>)
        ensures
            final(self).ui == (SessionUi { entry_line_ranges: ranges, ..old(self).ui }),
            final(self).core == old(self).core,
    {
        self.ui.entry_line_ranges = ranges;
    }

    /// Records the viewport height.
    pub fn set_viewport_height(&mut self, height: u16)
        ensures
            final(self).ui == (SessionUi { viewport_height: height, ..old(self).ui }),
            final(self).core == old(self).core,
    {
        self.ui.viewport_height = height;
    }

    /// The viewport height of the last render.
    pub fn viewport_height_value(&self) -> (h: u16)
        ensures
            h == self.ui.viewport_height,
    {
        self.ui.viewport_height
    }

    /// Records the number of blank lines prepended for bottom alignment.
    pub fn set_blank_count(&mut self, count: u16)
        ensures
            final(self).ui == (SessionUi { blank_count: count, ..old(self).ui }),
            final(self).core == old(self).core,
    {
        self.ui.blank_count = count;
    }

    /// The working directory of this session.
    pub fn cwd(&self) -> (r: &str)
        ensures
            r@ == self.core.cwd@,
    {
        self.core.cwd.as_str()
    }

    /// Sets the working directory.
    pub fn set_cwd(&mut self, cwd: String)
        ensures
            final(self).core == (SessionCore { cwd: cwd, ..old(self).core }),
            final(self).ui == old(self).ui,
    {
        self.core.cwd = cwd;
    }

    /// The token ledger, oldest record first.
    pub fn token_ledger(&self) -> (r: &[TokenRecord])
        ensures
            r@ == self.core.token_ledger@,
    {
        self.core.token_ledger.as_slice()
    }

    /// Appends a record to the ledger.
    pub fn push_token_record(&mut self, record: TokenRecord)
        ensures
            final(self).core.token_ledger@ == old(self).core.token_ledger@.push(record),
            final(self).core == (SessionCore { token_ledger: final(self).core.token_ledger, ..old(self).core }),
            final(self).ui == old(self).ui,
    {
        self.core.token_ledger.push(record);
    }

    /// Completes the last record of the ledger with the received count, the
    /// cost and the model used. Fails when the ledger is empty.
    pub fn finalize_last_token_record(
        &mut self,
        tokens_received: u32,
        cost_bits: Option<u64>,
        model_used: Option<String>,
    ) -> (r: Result<(), StreamingError>)
        ensures
            old(self).core.token_ledger@.len() == 0 ==> r == Err::<(), StreamingError>(
                StreamingError::EmptyLedger,
            ) && *final(self) == *old(self),
            old(self).core.token_ledger@.len() > 0 ==> r is Ok && final(self).core.token_ledger@
                == old(self).core.token_ledger@.update(
                old(self).core.token_ledger@.len() - 1,
                TokenRecord {
                    tokens_received: tokens_received,
                    cost_bits: cost_bits,
                    model_used: model_used,
                    ..old(self).core.token_ledger@.last()
                },
            ),
            final(self).core == (SessionCore { token_ledger: final(self).core.token_ledger, ..old(self).core }),
            final(self).ui == old(self).ui,
    {
        let n = self.core.token_ledger.len();
        if n == 0 {
            return Err(StreamingError::EmptyLedger);
        }
        self.core.token_ledger[n - 1].tokens_received = tokens_received;
        self.core.token_ledger[n - 1].cost_bits = cost_bits;
        self.core.token_ledger[n - 1].model_used = model_used;
        Ok(())
    }

    /// Replaces the ledger with persisted records.
    pub fn restore_token_ledger(&mut self, records: Vec<TokenRecord>)
        ensures
            final(self).core == (SessionCore { token_ledger: records, ..old(self).core }),
            final(self).ui == old(self).ui,
    {
        self.core.token_ledger = records;
    }

    /// The session this one was forked from.
    pub fn parent_session(&self) -> (r: Option<SessionId>)
        ensures
            r == self.core.parent_session,
    {
        self.core.parent_session
    }

    /// Records the parent session.
    pub fn set_parent_session(&mut self, parent: SessionId)
        ensures
            final(self).core == (SessionCore { parent_session: Some(parent), ..old(self).core }),
            final(self).ui == old(self).ui,
    {
        self.core.parent_session = Some(parent);
    }

    /// Restores the parent session from persisted data.
    pub fn restore_parent_session(&mut self, parent: Option<SessionId>)
        ensures
            final(self).core == (SessionCore { parent_session: parent, ..old(self).core }),
            final(self).ui == old(self).ui,
    {
        self.core.parent_session = parent;
    }

    /// The size in tokens of the last assembled prompt.
    pub fn context_size(&self) -> (r: Option<u32>)
        ensures
            r == self.core.ephemeral.cached_context_size,
    {
        self.core.ephemeral.cached_context_size
    }

    /// Records the size of the assembled prompt.
    pub fn set_context_size(&mut self, size: u32)
        ensures
            final(self).core.ephemeral == (SessionCoreEphemeral {
                cached_context_size: Some(size),
                ..old(self).core.ephemeral
            }),
            final(self).core == (SessionCore { ephemeral: final(self).core.ephemeral, ..old(self).core }),
            final(self).ui == old(self).ui,
    {
        self.core.ephemeral.cached_context_size = Some(size);
    }

    /// Restores the last-update time.
    pub fn restore_updated_at(&mut self, ts: jiff::Timestamp)
        ensures
            final(self).core == (SessionCore { updated_at: ts, ..old(self).core }),
            final(self).ui == old(self).ui,
    {
        self.core.updated_at = ts;
    }

    /// Restores the creation time.
    pub fn restore_created_at(&mut self, ts: jiff::Timestamp)
        ensures
            final(self).core == (SessionCore { created_at: ts, ..old(self).core }),
            final(self).ui == old(self).ui,
    {
        self.core.created_at = ts;
    }

    /// The session id.
    pub fn session_id(&self) -> (r: SessionId)
        ensures
            r == self.core.session_id,
    {
        self.core.session_id
    }

    /// Sets the session id.
    pub fn set_session_id(&mut self, id: SessionId)
        ensures
            final(self).core == (SessionCore { session_id: id, ..old(self).core }),
            final(self).ui == old(self).ui,
    {
        self.core.session_id = id;
    }

    /// The title; `None` until the first user message.
    pub fn title(&self) -> (r: Option<&str>)
        ensures
            match self.core.title {
                Some(t) => r is Some && r.unwrap()@ == t@,
                None => r is None,
            },
    {
        match &self.core.title {
            Some(t) => Some(t.as_str()),
            None => None,
        }
    }

    /// Sets the title.
    pub fn set_title(&mut self, title: String)
        ensures
            final(self).core == (SessionCore { title: Some(title), ..old(self).core }),
            final(self).ui == old(self).ui,
    {
        self.core.title = Some(title);
    }

    /// When the session was last updated.
    pub fn updated_at(&self) -> (r: jiff::Timestamp)
        ensures
            r == self.core.updated_at,
    {
        self.core.updated_at
    }

    /// When the session was created.
    pub fn created_at(&self) -> (r: jiff::Timestamp)
        ensures
            r == self.core.created_at,
    {
        self.core.created_at
    }

    /// Sets the last-update time to now.
    pub fn touch(&mut self)
        ensures
            final(self).core == (SessionCore { updated_at: final(self).core.updated_at, ..old(self).core }),
            final(self).ui == old(self).ui,
    {
        self.core.updated_at = timestamp_now();
    }

    /// The blobs stored for other subsystems: name and JSON text.
    pub fn blobs(&self) -> (r: &Vec<(String, String)>)
        ensures
            *r == self.core.blobs,
    {
        &self.core.blobs
    }

    /// Mutable access to the blobs.
    pub fn blobs_mut(&mut self) -> (r: &mut Vec<(String, String)>)
        ensures
            *r == old(self).core.blobs,
            *final(self) == (ChatSessionState {
                core: SessionCore { blobs: *final(r), ..old(self).core },
                ..*old(self)
            }),
    {
        &mut self.core.blobs
    }

    /// The name of the lifecycle that created the session.
    pub fn lifecycle_name(&self) -> (r: Option<&str>)
        ensures
            match self.core.lifecycle_name {
                Some(t) => r is Some && r.unwrap()@ == t@,
                None => r is None,
            },
    {
        match &self.core.lifecycle_name {
            Some(t) => Some(t.as_str()),
            None => None,
        }
    }

    /// Sets the lifecycle name.
    pub fn set_lifecycle_name(&mut self, name: Option<String>)
        ensures
            final(self).core == (SessionCore { lifecycle_name: name, ..old(self).core }),
            final(self).ui == old(self).ui,
    {
        self.core.lifecycle_name = name;
    }

    /// The arguments of the lifecycle setup command.
    pub fn lifecycle_args(&self) -> (r: &[String])
        ensures
            r@ == self.core.lifecycle_args@,
    {
        self.core.lifecycle_args.as_slice()
    }

    /// Sets the lifecycle arguments.
    pub fn set_lifecycle_args(&mut self, args: Vec<String>)
        ensures
            final(self).core == (SessionCore { lifecycle_args: args, ..old(self).core }),
            final(self).ui == old(self).ui,
    {
        self.core.lifecycle_args = args;
    }

    /// Whether the session is loaded or archived.
    pub fn session_state(&self) -> (r: SessionState)
        ensures
            r == self.core.session_state,
    {
        self.core.session_state
    }

    /// Sets whether the session is loaded or archived.
    pub fn set_session_state(&mut self, state: SessionState)
        ensures
            final(self).core == (SessionCore { session_state: state, ..old(self).core }),
            final(self).ui == old(self).ui,
    {
        self.core.session_state = state;
    }

    /// The lifecycle script progression.
    pub fn lifecycle_script_state(&self) -> (r: LifecycleScriptState)
        ensures
            r == self.core.lifecycle_script_state,
    {
        self.core.lifecycle_script_state
    }

    /// Records a successful setup: `NothingRan -> SetupRan`.
    pub fn advance_lifecycle_after_setup(&mut self)
        ensures
            final(self).core == (SessionCore {
                lifecycle_script_state: after_setup(old(self).core.lifecycle_script_state),
                ..old(self).core
            }),
            final(self).ui == old(self).ui,
    {
        self.core.lifecycle_script_state.advance_after_setup();
    }

    /// Records a successful teardown: `SetupRan -> TeardownRan`.
    pub fn advance_lifecycle_after_teardown(&mut self)
        ensures
            final(self).core == (SessionCore {
                lifecycle_script_state: after_teardown(old(self).core.lifecycle_script_state),
                ..old(self).core
            }),
            final(self).ui == old(self).ui,
    {
        self.core.lifecycle_script_state.advance_after_teardown();
    }

    /// Disables the tool loop for the current turn.
    pub fn set_tool_loop_disabled(&mut self)
        ensures
            final(self).core.ephemeral.machine.tool_loop_disabled_view(),
            final(self).core.ephemeral.machine.phase_view() == old(self).core.ephemeral.machine.phase_view(),
            final(self).core.ephemeral == (SessionCoreEphemeral {
                machine: final(self).core.ephemeral.machine,
                ..old(self).core.ephemeral
            }),
            final(self).core == (SessionCore { ephemeral: final(self).core.ephemeral, ..old(self).core }),
            final(self).ui == old(self).ui,
    {
        self.core.ephemeral.machine.set_tool_loop_disabled();
    }

    /// Returns the tool-loop-disabled flag and clears it.
    pub fn take_tool_loop_disabled(&mut self) -> (b: bool)
        ensures
            b == old(self).core.ephemeral.machine.tool_loop_disabled_view(),
            !final(self).core.ephemeral.machine.tool_loop_disabled_view(),
            final(self).core.ephemeral.machine.phase_view() == old(self).core.ephemeral.machine.phase_view(),
            final(self).core.ephemeral == (SessionCoreEphemeral {
                machine: final(self).core.ephemeral.machine,
                ..old(self).core.ephemeral
            }),
            final(self).core == (SessionCore { ephemeral: final(self).core.ephemeral, ..old(self).core }),
            final(self).ui == old(self).ui,
    {
        self.core.ephemeral.machine.take_tool_loop_disabled()
    }

    /// Whether the tool loop is disabled.
    pub fn is_tool_loop_disabled(&self) -> (b: bool)
        ensures
            b == self.core.ephemeral.machine.tool_loop_disabled_view(),
    {
        self.core.ephemeral.machine.is_tool_loop_disabled()
    }

    /// Saves the scroll position and cursor before browsing pins; a saved
    /// position is never overwritten.
    pub fn save_history_position(&mut self)
        ensures
            position_saved(*old(self), *final(self)),
    {
        if self.ui.saved_history_position.is_some() {
            return;
        }
        self.ui.saved_history_position = Some(
            SavedHistoryPosition {
                scroll_offset: self.ui.scroll_offset,
                selected_cursor_id: self.ui.selected_cursor_id,
            },
        );
    }

    /// Restores and consumes the saved position, if any.
    pub fn restore_history_position(&mut self)
        ensures
            position_restored(*old(self), *final(self)),
    {
        if let Some(saved) = self.ui.saved_history_position {
            self.ui.saved_history_position = None;
            self.ui.scroll_offset = saved.scroll_offset;
            self.ui.selected_cursor_id = saved.selected_cursor_id;
        }
    }

    /// Drops the saved position without restoring it.
    pub fn discard_saved_history_position(&mut self)
        ensures
            final(self).ui == (SessionUi { saved_history_position: None, ..old(self).ui }),
            final(self).core == old(self).core,
    {
        self.ui.saved_history_position = None;
    }

    /// Whether a position is saved.
    pub fn has_saved_history_position(&self) -> (b: bool)
        ensures
            b == self.ui.saved_history_position is Some,
    {
        self.ui.saved_history_position.is_some()
    }

    /// The id under the cursor, even when it stands for a collapsed block.
    pub fn selected_cursor_id(&self) -> (r: Option<ChatEntryId>)
        ensures
            r == self.ui.selected_cursor_id,
    {
        self.ui.selected_cursor_id
    }

    /// Puts the cursor on the entry with this id.
    pub fn set_selected_cursor_id(&mut self, id: ChatEntryId)
        ensures
            final(self).ui == (SessionUi { selected_cursor_id: Some(id), ..old(self).ui }),
            final(self).core == old(self).core,
    {
        self.ui.selected_cursor_id = Some(id);
    }

    /// Clears the selection.
    pub fn clear_selection(&mut self)
        ensures
            final(self).ui == (SessionUi { selected_cursor_id: None, ..old(self).ui }),
            final(self).core == old(self).core,
    {
        self.ui.selected_cursor_id = None;
    }

    /// Expands a collapsed tool result entry, or collapses an expanded one.
    pub fn toggle_expand_entry(&mut self, id: ChatEntryId)
        requires
            session_wf(*old(self)),
        ensures
            session_wf(*final(self)),
            old(self).ui.expanded_entries@.contains(id.0) ==> final(self).ui.expanded_entries@
                == old(self).ui.expanded_entries@.remove(id.0),
            !old(self).ui.expanded_entries@.contains(id.0) ==> final(self).ui.expanded_entries@
                == old(self).ui.expanded_entries@.insert(id.0),
            final(self).ui == (SessionUi { expanded_entries: final(self).ui.expanded_entries, ..old(self).ui }),
            final(self).core == old(self).core,
    {
        self.ui.expanded_entries.toggle(id);
    }

    /// Whether a tool result entry is expanded.
    pub fn is_entry_expanded(&self, id: &ChatEntryId) -> (b: bool)
        ensures
            b == self.ui.expanded_entries@.contains(id.0),
    {
        self.ui.expanded_entries.contains(id)
    }

    /// Queues a batch of history mutations; empty batches are ignored.
    pub fn queue_mutations(&mut self, batch: Vec<crate::session::HistoryMutation>)
        ensures
            batch@.len() == 0 ==> *final(self) == *old(self),
            batch@.len() > 0 ==> final(self).core.ephemeral.pending_mutations@
                == old(self).core.ephemeral.pending_mutations@.push(batch),
            final(self).core.ephemeral == (SessionCoreEphemeral {
                pending_mutations: final(self).core.ephemeral.pending_mutations,
                ..old(self).core.ephemeral
            }),
            final(self).core == (SessionCore { ephemeral: final(self).core.ephemeral, ..old(self).core }),
            final(self).ui == old(self).ui,
    {
        if batch.len() > 0 {
            self.core.ephemeral.pending_mutations.push(batch);
        }
    }

    /// Takes every pending mutation batch, oldest first.
    pub fn drain_pending_mutations(&mut self) -> (r: Vec<Vec<crate::session::HistoryMutation>>)
        ensures
            r@ == old(self).core.ephemeral.pending_mutations@,
            final(self).core.ephemeral.pending_mutations@.len() == 0,
            final(self).core.ephemeral == (SessionCoreEphemeral {
                pending_mutations: final(self).core.ephemeral.pending_mutations,
                ..old(self).core.ephemeral
            }),
            final(self).core == (SessionCore { ephemeral: final(self).core.ephemeral, ..old(self).core }),
            final(self).ui == old(self).ui,
    {
        let mut out = Vec::new();
        std::mem::swap(&mut out, &mut self.core.ephemeral.pending_mutations);
        out
    }

    /// Marks every attached plugin that was running as idle, after a load.
    pub fn rehydrate_attached_plugins(&mut self)
        ensures
            final(self).core.attached_plugins@.len() == old(self).core.attached_plugins@.len(),
            forall|i: int|
                0 <= i < old(self).core.attached_plugins@.len() ==> (#[trigger] final(self).core.attached_plugins@[i])
                    == (crate::session::AttachedPlugin {
                    run_state: crate::session::PluginRunState::Idle,
                    ..old(self).core.attached_plugins@[i]
                }),
            final(self).core == (SessionCore { attached_plugins: final(self).core.attached_plugins, ..old(self).core }),
            final(self).ui == old(self).ui,
    {
        let n = self.core.attached_plugins.len();
        let mut i: usize = 0;
        while i < n
            invariant
                n == old(self).core.attached_plugins@.len(),
                self.core.attached_plugins@.len() == n,
                0 <= i <= n,
                forall|j: int|
                    0 <= j < i ==> (#[trigger] self.core.attached_plugins@[j]) == (crate::session::AttachedPlugin {
                        run_state: crate::session::PluginRunState::Idle,
                        ..old(self).core.attached_plugins@[j]
                    }),
                forall|j: int| i <= j < n ==> #[trigger] self.core.attached_plugins@[j] == old(self).core.attached_plugins@[j],
                self.core == (SessionCore { attached_plugins: self.core.attached_plugins, ..old(self).core }),
                self.ui == old(self).ui,
            decreases n - i,
        {
            if self.core.attached_plugins[i].run_state == crate::session::PluginRunState::Running {
                self.core.attached_plugins[i].run_state = crate::session::PluginRunState::Idle;
            }
            i = i + 1;
        }
    }
}

} // verus!
