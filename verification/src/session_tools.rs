//! Tool calls and tool results streamed into the history of a session.
use vstd::prelude::*;
use vstd::string::*;
use crate::entry::{ChatEntry, ChatEntryId, ChatEntryKind, EntryTiming, PinPosition, ToolResultStatus, TruncationMeta};
use crate::machine::{call_lookup, result_lookup};
use crate::phase::{PhaseKind, StreamingPhase};
use crate::session::{ChatSessionState, SessionCore, StreamingError};
use crate::session_stream::{assistant_ensured, entry_finished, entry_only, minted_push, stream_entry};

verus! {

/// The tool-call map of a session, when streaming.
pub open spec fn call_index(s: ChatSessionState, k: usize) -> Option<usize> {
    match s.core.ephemeral.machine.streaming_view() {
        Some(sp) => call_lookup(sp.streaming_tool_call_indices@, k),
        None => None,
    }
}

/// The tool-result map of a session, when streaming.
pub open spec fn result_index(s: ChatSessionState, k: Seq<char>) -> Option<usize> {
    match s.core.ephemeral.machine.streaming_view() {
        Some(sp) => result_lookup(sp.streaming_tool_result_indices@, k),
        None => None,
    }
}

/// `j` is the last tool call entry of `h`.
pub open spec fn is_last_tool_call(h: Seq<ChatEntry>, j: int) -> bool {
    &&& 0 <= j < h.len()
    &&& h[j].kind is ToolCall
    &&& forall|k: int| j < k < h.len() ==> !(#[trigger] h[k].kind is ToolCall)
}

/// `j` is the last tool result entry of `h` answering call `call_id`.
pub open spec fn is_last_result_for(h: Seq<ChatEntry>, call_id: Seq<char>, j: int) -> bool {
    &&& 0 <= j < h.len()
    &&& crate::session_history::tool_result_id(h[j]) == Some(call_id)
    &&& forall|k: int| j < k < h.len() ==> #[trigger] crate::session_history::tool_result_id(h[k]) != Some(call_id)
}

/// The tool result `before` completed: content, status, full output,
/// truncation and pin replaced (the pin on the entry too), finished stamped.
pub open spec fn result_completed(
    before: ChatEntry,
    after: ChatEntry,
    content: Seq<char>,
    status: ToolResultStatus,
    full_content: Option<String>,
    truncation: Option<TruncationMeta>,
    pin: Option<PinPosition>,
) -> bool {
    &&& before.kind matches ChatEntryKind::ToolResult { id, name, .. } && after.kind matches ChatEntryKind::ToolResult {
        id: id2,
        name: name2,
        content: c2,
        status: s2,
        full_content: f2,
        truncation: t2,
        pin_position: p2,
    } && id2 == id && name2 == name && c2@ == content && s2 == status && f2 == full_content
        && t2 == truncation && p2 == pin
    &&& after.pin_position == pin
    &&& after.timing.finished_at is Some
    &&& after.timing.dispatched_at == before.timing.dispatched_at
    &&& after.timing.first_token_at == before.timing.first_token_at
    &&& after.id == before.id
    &&& after.context_override == before.context_override
    &&& after.context_history == before.context_history
}

/// The status a finished tool reports.
pub open spec fn finished_status(success: bool) -> ToolResultStatus {
    if success { ToolResultStatus::Success } else { ToolResultStatus::Failure }
}

proof fn lemma_last_tool_call_unique(h: Seq<ChatEntry>, a: int, b: int)
    requires
        is_last_tool_call(h, a),
        is_last_tool_call(h, b),
    ensures
        a == b,
{
    if a < b {
        assert(!(h[b].kind is ToolCall));
    }
    if b < a {
        assert(!(h[a].kind is ToolCall));
    }
}

proof fn lemma_last_result_unique(h: Seq<ChatEntry>, call_id: Seq<char>, a: int, b: int)
    requires
        is_last_result_for(h, call_id, a),
        is_last_result_for(h, call_id, b),
    ensures
        a == b,
{
    if a < b {
        assert(crate::session_history::tool_result_id(h[b]) != Some(call_id));
    }
    if b < a {
        assert(crate::session_history::tool_result_id(h[a]) != Some(call_id));
    }
}

impl ChatSessionState {
    /// Starts a streamed tool call: the stream's assistant entry is created
    /// if missing, a tool call entry with empty arguments is appended, and
    /// while streaming it is tracked under stream index `index`.
    pub fn begin_tool_call(&mut self, index: usize, id: &str, name: &str, dispatched_at: jiff::Timestamp)
        requires
            old(self).core.history@.len() + 1 < usize::MAX,
        ensures
            exists|mid: ChatSessionState| {
                let e = final(self).core.history@.last();
                &&& #[trigger] assistant_ensured(*old(self), mid, dispatched_at)
                &&& stream_entry(e, dispatched_at)
                &&& e.kind matches ChatEntryKind::ToolCall { id: ci, name: n, arguments: a }
                    && ci@ == id@ && n@ == name@ && a@.len() == 0
                &&& minted_push(mid, *final(self), e, final(self).core.ephemeral.machine)
                &&& match mid.core.ephemeral.machine.streaming_view() {
                    Some(sp) => {
                        let fsp = final(self).core.ephemeral.machine.streaming_view().unwrap();
                        &&& final(self).core.ephemeral.machine.kind_view() == PhaseKind::Streaming
                        &&& final(self).core.ephemeral.machine.tool_loop_disabled_view()
                            == mid.core.ephemeral.machine.tool_loop_disabled_view()
                        &&& fsp == StreamingPhase { streaming_tool_call_indices: fsp.streaming_tool_call_indices, ..sp }
                        &&& call_lookup(fsp.streaming_tool_call_indices@, index) == Some(mid.core.history@.len() as usize)
                        &&& forall|q: usize| q != index ==> call_lookup(fsp.streaming_tool_call_indices@, q)
                            == call_lookup(sp.streaming_tool_call_indices@, q)
                    },
                    None => final(self).core.ephemeral.machine == mid.core.ephemeral.machine,
                }
            },
    {
        self.ensure_assistant_entry(dispatched_at);
        let ghost mid = *self;
        let mut timing = EntryTiming::streamed(dispatched_at);
        timing.set_first_token();
        proof {
            reveal_strlit("");
        }
        let entry = ChatEntry { timing, ..ChatEntry::tool_call(ChatEntryId(0), id, name, "") };
        let history_index = self.push_new_entry(entry);
        let ghost pushed = *self;
        self.core.ephemeral.machine.track_tool_call(index, history_index);
        proof {
            let e = self.core.history@.last();
            assert(e == pushed.core.history@.last());
            assert(stream_entry(e, dispatched_at));
            assert(minted_push(mid, pushed, e, pushed.core.ephemeral.machine));
            assert(minted_push(mid, *self, e, self.core.ephemeral.machine));
            assert(pushed.core.ephemeral.machine == mid.core.ephemeral.machine);
            assert(history_index == mid.core.history@.len());
            match mid.core.ephemeral.machine.streaming_view() {
                Some(sp) => {
                    let fsp = self.core.ephemeral.machine.streaming_view().unwrap();
                    assert(self.core.ephemeral.machine.kind_view() == PhaseKind::Streaming);
                    assert(fsp == StreamingPhase { streaming_tool_call_indices: fsp.streaming_tool_call_indices, ..sp });
                    assert(call_lookup(fsp.streaming_tool_call_indices@, index) == Some(mid.core.history@.len() as usize));
                },
                None => {
                    assert(self.core.ephemeral.machine == mid.core.ephemeral.machine);
                },
            }
        }
    }

    /// Appends a fragment of a streamed tool call's arguments. Fails with
    /// `NoToolCallIndex` when no tool call is tracked under `index`.
    pub fn append_tool_call_delta(&mut self, index: usize, partial_json: &str) -> (r: Result<(), StreamingError>)
        requires
            call_index(*old(self), index) matches Some(h) ==> h < old(self).core.history@.len(),
        ensures
            match call_index(*old(self), index) {
                None => *final(self) == *old(self) && r == Err::<(), StreamingError>(
                    StreamingError::NoToolCallIndex { index },
                ),
                Some(h) => {
                    &&& r is Ok
                    &&& match old(self).core.history@[h as int].kind {
                        ChatEntryKind::ToolCall { id, name, arguments } => {
                            &&& entry_only(*old(self), *final(self), h as int)
                            &&& final(self).core.history@[h as int] == ChatEntry {
                                kind: final(self).core.history@[h as int].kind,
                                ..old(self).core.history@[h as int]
                            }
                            &&& final(self).core.history@[h as int].kind matches ChatEntryKind::ToolCall {
                                id: id2,
                                name: name2,
                                arguments: a2,
                            } && id2 == id && name2 == name && a2@ == arguments@ + partial_json@
                        },
                        _ => *final(self) == *old(self),
                    }
                },
            },
    {
        let h = match self.core.ephemeral.machine.streaming_tool_call_index(index) {
            Some(h) => h,
            None => return Err(StreamingError::NoToolCallIndex { index }),
        };
        let is_call = match &self.core.history[h].kind {
            ChatEntryKind::ToolCall { .. } => true,
            _ => false,
        };
        if !is_call {
            return Ok(());
        }
        match &mut self.core.history[h].kind {
            ChatEntryKind::ToolCall { arguments, .. } => {
                arguments.append(partial_json);
            },
            _ => {},
        }
        Ok(())
    }

    /// The last tool call entry, if any.
    fn last_tool_call_index(&self) -> (r: Option<usize>)
        ensures
            match r {
                Some(j) => is_last_tool_call(self.core.history@, j as int),
                None => forall|k: int| 0 <= k < self.core.history@.len() ==> !(#[trigger] self.core.history@[k].kind is ToolCall),
            },
    {
        let mut j = self.core.history.len();
        while j > 0
            invariant
                j <= self.core.history@.len(),
                forall|k: int| j <= k < self.core.history@.len() ==> !(#[trigger] self.core.history@[k].kind is ToolCall),
            decreases j,
        {
            let is_call = match &self.core.history[j - 1].kind {
                ChatEntryKind::ToolCall { .. } => true,
                _ => false,
            };
            if is_call {
                return Some(j - 1);
            }
            j = j - 1;
        }
        None
    }

    /// Completes the last tool call entry with its final id, name and
    /// arguments and stamps it finished. When there is none, a new tool call
    /// entry is appended instead.
    pub fn finalize_tool_call(&mut self, id: &str, name: &str, arguments: &str)
        requires
            old(self).core.history@.len() < usize::MAX,
        ensures
            forall|j: int| #[trigger] is_last_tool_call(old(self).core.history@, j) ==> {
                &&& entry_only(*old(self), *final(self), j)
                &&& entry_finished(
                    ChatEntry { kind: final(self).core.history@[j].kind, ..old(self).core.history@[j] },
                    final(self).core.history@[j],
                )
                &&& final(self).core.history@[j].kind matches ChatEntryKind::ToolCall { id: i2, name: n2, arguments: a2 }
                    && i2@ == id@ && n2@ == name@ && a2@ == arguments@
            },
            (forall|k: int| 0 <= k < old(self).core.history@.len() ==> !(#[trigger] old(self).core.history@[k].kind is ToolCall)) ==> {
                let e = final(self).core.history@.last();
                &&& crate::entry::fresh_entry(e, ChatEntryId(old(self).core.ephemeral.next_entry_id), e.kind)
                &&& e.kind matches ChatEntryKind::ToolCall { id: i2, name: n2, arguments: a2 }
                    && i2@ == id@ && n2@ == name@ && a2@ == arguments@
                &&& minted_push(*old(self), *final(self), e, old(self).core.ephemeral.machine)
            },
    {
        match self.last_tool_call_index() {
            Some(j) => {
                proof {
                    assert forall|j2: int| #[trigger] is_last_tool_call(old(self).core.history@, j2) implies j2 == j by {
                        lemma_last_tool_call_unique(old(self).core.history@, j2, j as int);
                    }
                }
                self.core.history[j].kind = ChatEntryKind::ToolCall {
                    id: String::from_str(id),
                    name: String::from_str(name),
                    arguments: String::from_str(arguments),
                };
                self.core.history[j].timing.finish();
                assert(self.core.history@ =~= old(self).core.history@.update(j as int, self.core.history@[j as int]));
            },
            None => {
                proof {
                    assert forall|j2: int| !is_last_tool_call(old(self).core.history@, j2) by {
                        if 0 <= j2 < old(self).core.history@.len() {
                            assert(!(old(self).core.history@[j2].kind is ToolCall));
                        }
                    }
                }
                let entry = ChatEntry::tool_call(ChatEntryId(0), id, name, arguments);
                self.push_new_entry(entry);
            },
        }
    }
}

impl ChatSessionState {
    /// Starts a streamed tool result: while streaming, a pending tool result
    /// entry with empty content is appended and tracked under its call id.
    /// Ignored when not streaming.
    pub fn begin_tool_result(&mut self, tool_call_id: &str, name: &str, dispatched_at: jiff::Timestamp)
        requires
            old(self).core.history@.len() < usize::MAX,
        ensures
            match old(self).core.ephemeral.machine.streaming_view() {
                None => *final(self) == *old(self),
                Some(sp) => {
                    let e = final(self).core.history@.last();
                    let fsp = final(self).core.ephemeral.machine.streaming_view().unwrap();
                    &&& stream_entry(e, dispatched_at)
                    &&& e.kind matches ChatEntryKind::ToolResult {
                        id: ci,
                        name: n,
                        content: c,
                        status: st,
                        full_content: fc,
                        truncation: tr,
                        pin_position: pp,
                    } && ci@ == tool_call_id@ && n@ == name@ && c@.len() == 0 && st == ToolResultStatus::Pending
                        && fc is None && tr is None && pp is None
                    &&& minted_push(*old(self), *final(self), e, final(self).core.ephemeral.machine)
                    &&& final(self).core.ephemeral.machine.kind_view() == PhaseKind::Streaming
                    &&& final(self).core.ephemeral.machine.tool_loop_disabled_view()
                        == old(self).core.ephemeral.machine.tool_loop_disabled_view()
                    &&& fsp == StreamingPhase { streaming_tool_result_indices: fsp.streaming_tool_result_indices, ..sp }
                    &&& result_lookup(fsp.streaming_tool_result_indices@, tool_call_id@)
                        == Some(old(self).core.history@.len() as usize)
                    &&& forall|q: Seq<char>| q != tool_call_id@ ==> #[trigger] result_lookup(fsp.streaming_tool_result_indices@, q)
                        == result_lookup(sp.streaming_tool_result_indices@, q)
                },
            },
    {
        if self.core.ephemeral.machine.kind() != PhaseKind::Streaming {
            return;
        }
        let mut timing = EntryTiming::streamed(dispatched_at);
        timing.set_first_token();
        proof {
            reveal_strlit("");
        }
        let entry = ChatEntry {
            timing,
            ..ChatEntry::tool_result(ChatEntryId(0), tool_call_id, name, "", ToolResultStatus::Pending)
        };
        let ghost before = *self;
        let history_index = self.push_new_entry(entry);
        let ghost pushed = *self;
        self.core.ephemeral.machine.track_tool_result(tool_call_id, history_index);
        proof {
            let e = self.core.history@.last();
            assert(e == pushed.core.history@.last());
            assert(minted_push(before, *self, e, self.core.ephemeral.machine));
        }
    }

    /// Appends output to the streamed tool result tracked under
    /// `tool_call_id`; ignored when none is tracked or the entry is not a
    /// tool result.
    pub fn append_tool_result_output(&mut self, tool_call_id: &str, output: &str)
        requires
            result_index(*old(self), tool_call_id@) matches Some(h) ==> h < old(self).core.history@.len(),
        ensures
            match result_index(*old(self), tool_call_id@) {
                None => *final(self) == *old(self),
                Some(h) => match old(self).core.history@[h as int].kind {
                    ChatEntryKind::ToolResult { id, name, content, status, full_content, truncation, pin_position } => {
                        &&& entry_only(*old(self), *final(self), h as int)
                        &&& final(self).core.history@[h as int] == ChatEntry {
                            kind: final(self).core.history@[h as int].kind,
                            ..old(self).core.history@[h as int]
                        }
                        &&& final(self).core.history@[h as int].kind matches ChatEntryKind::ToolResult {
                            id: i2,
                            name: n2,
                            content: c2,
                            status: s2,
                            full_content: f2,
                            truncation: t2,
                            pin_position: p2,
                        } && i2 == id && n2 == name && c2@ == content@ + output@ && s2 == status
                            && f2 == full_content && t2 == truncation && p2 == pin_position
                    },
                    _ => *final(self) == *old(self),
                },
            },
    {
        let h = match self.core.ephemeral.machine.streaming_tool_result_index(tool_call_id) {
            Some(h) => h,
            None => return,
        };
        let is_result = match &self.core.history[h].kind {
            ChatEntryKind::ToolResult { .. } => true,
            _ => false,
        };
        if !is_result {
            return;
        }
        match &mut self.core.history[h].kind {
            ChatEntryKind::ToolResult { content, .. } => {
                content.append(output);
            },
            _ => {},
        }
    }

    /// The last tool result entry answering `call_id`, if any.
    fn last_result_for(&self, call_id: &str) -> (r: Option<usize>)
        ensures
            match r {
                Some(j) => is_last_result_for(self.core.history@, call_id@, j as int),
                None => forall|k: int| 0 <= k < self.core.history@.len()
                    ==> #[trigger] crate::session_history::tool_result_id(self.core.history@[k]) != Some(call_id@),
            },
    {
        let key = String::from_str(call_id);
        let mut j = self.core.history.len();
        while j > 0
            invariant
                j <= self.core.history@.len(),
                key@ == call_id@,
                forall|k: int| j <= k < self.core.history@.len()
                    ==> #[trigger] crate::session_history::tool_result_id(self.core.history@[k]) != Some(call_id@),
            decreases j,
        {
            let hit = match &self.core.history[j - 1].kind {
                ChatEntryKind::ToolResult { id, .. } => *id == key,
                _ => false,
            };
            if hit {
                return Some(j - 1);
            }
            j = j - 1;
        }
        None
    }

    /// Completes the tool result entry at `h` (when it is one).
    fn complete_result_at(
        &mut self,
        h: usize,
        content: &str,
        status: ToolResultStatus,
        full_content: Option<String>,
        truncation: Option<TruncationMeta>,
        pin_position: Option<PinPosition>,
    )
        requires
            h < old(self).core.history@.len(),
        ensures
            old(self).core.history@[h as int].kind is ToolResult ==> {
                &&& entry_only(*old(self), *final(self), h as int)
                &&& result_completed(
                    old(self).core.history@[h as int],
                    final(self).core.history@[h as int],
                    content@,
                    status,
                    full_content,
                    truncation,
                    pin_position,
                )
            },
            !(old(self).core.history@[h as int].kind is ToolResult) ==> *final(self) == *old(self),
    {
        let is_result = match &self.core.history[h].kind {
            ChatEntryKind::ToolResult { .. } => true,
            _ => false,
        };
        if !is_result {
            return;
        }
        match &mut self.core.history[h].kind {
            ChatEntryKind::ToolResult {
                content: c,
                status: s,
                full_content: f,
                truncation: t,
                pin_position: p,
                ..
            } => {
                *c = String::from_str(content);
                *s = status;
                *f = full_content;
                *t = truncation;
                *p = pin_position;
            },
            _ => {},
        }
        self.core.history[h].pin_position = pin_position;
        self.core.history[h].timing.finish();
        assert(self.core.history@ =~= old(self).core.history@.update(h as int, self.core.history@[h as int]));
    }

    /// Completes a tool result with its final content and status (success
    /// or failure), full output, truncation and pin. The streamed entry
    /// tracked under `tool_call_id` is completed and untracked; without one,
    /// the last tool result entry answering `tool_call_id` is completed;
    /// without that either, a new tool result entry is appended (keeping the
    /// full output only when truncated).
    pub fn finalize_tool_result(
        &mut self,
        tool_call_id: &str,
        name: &str,
        content: &str,
        success: bool,
        full_content: Option<String>,
        truncation: Option<TruncationMeta>,
        pin_position: Option<PinPosition>,
    )
        requires
            old(self).core.history@.len() < usize::MAX,
            result_index(*old(self), tool_call_id@) matches Some(h) ==> h < old(self).core.history@.len(),
        ensures
            match result_index(*old(self), tool_call_id@) {
                Some(h) => {
                    let sp = old(self).core.ephemeral.machine.streaming_view().unwrap();
                    let fsp = final(self).core.ephemeral.machine.streaming_view().unwrap();
                    &&& final(self).core.ephemeral.machine.kind_view() == PhaseKind::Streaming
                    &&& final(self).core.ephemeral.machine.tool_loop_disabled_view()
                        == old(self).core.ephemeral.machine.tool_loop_disabled_view()
                    &&& fsp == StreamingPhase { streaming_tool_result_indices: fsp.streaming_tool_result_indices, ..sp }
                    &&& result_lookup(fsp.streaming_tool_result_indices@, tool_call_id@) is None
                    &&& forall|q: Seq<char>| q != tool_call_id@ ==> #[trigger] result_lookup(fsp.streaming_tool_result_indices@, q)
                        == result_lookup(sp.streaming_tool_result_indices@, q)
                    &&& final(self).ui == old(self).ui
                    &&& final(self).core == (SessionCore {
                        history: final(self).core.history,
                        ephemeral: crate::session::SessionCoreEphemeral {
                            machine: final(self).core.ephemeral.machine,
                            ..old(self).core.ephemeral
                        },
                        ..old(self).core
                    })
                    &&& if old(self).core.history@[h as int].kind is ToolResult {
                        &&& final(self).core.history@ == old(self).core.history@.update(h as int, final(self).core.history@[h as int])
                        &&& result_completed(
                            old(self).core.history@[h as int],
                            final(self).core.history@[h as int],
                            content@,
                            finished_status(success),
                            full_content,
                            truncation,
                            pin_position,
                        )
                    } else {
                        final(self).core.history == old(self).core.history
                    }
                },
                None => {
                    &&& forall|j: int| #[trigger] is_last_result_for(old(self).core.history@, tool_call_id@, j) ==> {
                        &&& entry_only(*old(self), *final(self), j)
                        &&& result_completed(
                            old(self).core.history@[j],
                            final(self).core.history@[j],
                            content@,
                            finished_status(success),
                            full_content,
                            truncation,
                            pin_position,
                        )
                    }
                    &&& (forall|k: int| 0 <= k < old(self).core.history@.len()
                        ==> #[trigger] crate::session_history::tool_result_id(old(self).core.history@[k]) != Some(tool_call_id@))
                        ==> {
                        let e = final(self).core.history@.last();
                        &&& minted_push(*old(self), *final(self), e, old(self).core.ephemeral.machine)
                        &&& e.pin_position == pin_position
                        &&& e.context_override == crate::entry::ContextOverride::Default
                        &&& e.context_history@.len() == 0
                        &&& e.timing.dispatched_at is None && e.timing.first_token_at is None && e.timing.finished_at is None
                        &&& e.kind matches ChatEntryKind::ToolResult {
                            id: ci,
                            name: n,
                            content: c,
                            status: st,
                            full_content: fc,
                            truncation: tr,
                            pin_position: pp,
                        } && ci@ == tool_call_id@ && n@ == name@ && c@ == content@ && st == finished_status(success)
                            && tr == truncation && pp == pin_position
                            && fc == match truncation {
                                Some(_) => Some(match full_content {
                                    Some(f) => f,
                                    None => fc->0,
                                }),
                                None => None,
                            }
                            && (truncation is Some && full_content is None ==> fc->0@.len() == 0)
                    }
                },
            },
    {
        let status = if success { ToolResultStatus::Success } else { ToolResultStatus::Failure };
        match self.core.ephemeral.machine.take_tool_result_index(tool_call_id) {
            Some(h) => {
                self.complete_result_at(h, content, status, full_content, truncation, pin_position);
            },
            None => {
                match self.last_result_for(tool_call_id) {
                    Some(j) => {
                        proof {
                            assert forall|j2: int| #[trigger] is_last_result_for(old(self).core.history@, tool_call_id@, j2)
                                implies j2 == j by {
                                lemma_last_result_unique(old(self).core.history@, tool_call_id@, j2, j as int);
                            }
                        }
                        self.complete_result_at(j, content, status, full_content, truncation, pin_position);
                    },
                    None => {
                        proof {
                            assert forall|j2: int| !is_last_result_for(old(self).core.history@, tool_call_id@, j2) by {
                                if 0 <= j2 < old(self).core.history@.len() {
                                    assert(crate::session_history::tool_result_id(old(self).core.history@[j2]) != Some(tool_call_id@));
                                }
                            }
                        }
                        let mut entry = match truncation {
                            Some(meta) => {
                                let full = match full_content {
                                    Some(f) => f,
                                    None => String::new(),
                                };
                                ChatEntry::tool_result_truncated(
                                    ChatEntryId(0),
                                    tool_call_id,
                                    name,
                                    String::from_str(content),
                                    full,
                                    status,
                                    meta,
                                )
                            },
                            None => ChatEntry::tool_result(ChatEntryId(0), tool_call_id, name, content, status),
                        };
                        match &mut entry.kind {
                            ChatEntryKind::ToolResult { pin_position: kp, .. } => {
                                *kp = pin_position;
                            },
                            _ => {},
                        }
                        entry.pin_position = pin_position;
                        self.push_new_entry(entry);
                    },
                }
            },
        }
    }
}

} // verus!
