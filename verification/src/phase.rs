//! Phase types for the session phase machine.
//!
//! [`Phase`] is a struct-per-variant enum where each phase carries its own
//! state; leaving a variant drops its data. [`PhaseKind`] is the bare
//! discriminant used for events and logging.
use vstd::prelude::*;
use vstd::string::*;

verus! {

/// Discriminant of [`Phase`], used where the per-phase data is not needed.
#[derive(Debug, Clone, Copy, PartialEq, Eq, Structural, Hash)]
pub enum PhaseKind {
    Idle,
    Sending,
    Streaming,
}

/// Error returned when a string does not name any [`PhaseKind`]; it carries
/// the rejected input.
#[derive(Debug, Clone)]
pub struct PhaseKindParseError(pub String);

/// The lower-case form of a string, as `str::to_lowercase` computes it.
pub uninterp spec fn lowercase(s: Seq<char>) -> Seq<char>;

/// Calls `str::to_lowercase`; its result is named [`lowercase`] of the input.
#[verifier::external_body]
pub(crate) fn str_to_lowercase(s: &str) -> (r: String)
    ensures
        r@ == lowercase(s@),
{
    s.to_lowercase()
}

/// The phase kind a lower-case name denotes, if any.
pub open spec fn phase_kind_of_lower(s: Seq<char>) -> Option<PhaseKind> {
    if s == "idle"@ {
        Some(PhaseKind::Idle)
    } else if s == "sending"@ {
        Some(PhaseKind::Sending)
    } else if s == "streaming"@ {
        Some(PhaseKind::Streaming)
    } else {
        None
    }
}

/// Maps an already lower-cased name to its phase kind: `"idle"`, `"sending"`
/// or `"streaming"`; anything else gives `None`.
pub fn phase_kind_from_lowercase(lower: &String) -> (r: Option<PhaseKind>)
    ensures
        r == phase_kind_of_lower(lower@),
{
    if *lower == String::from_str("idle") {
        Some(PhaseKind::Idle)
    } else if *lower == String::from_str("sending") {
        Some(PhaseKind::Sending)
    } else if *lower == String::from_str("streaming") {
        Some(PhaseKind::Streaming)
    } else {
        None
    }
}

impl PhaseKind {
    /// Parses a phase kind name case-insensitively (the input is lower-cased
    /// first). Unknown names are rejected with the original input.
    pub fn parse(s: &str) -> (r: Result<PhaseKind, PhaseKindParseError>)
        ensures
            match phase_kind_of_lower(lowercase(s@)) {
                Some(k) => r == Ok::<PhaseKind, PhaseKindParseError>(k),
                None => r is Err && r->Err_0.0@ == s@,
            },
    {
        let lower = str_to_lowercase(s);
        match phase_kind_from_lowercase(&lower) {
            Some(k) => Ok(k),
            None => Err(PhaseKindParseError(String::from_str(s))),
        }
    }
}

/// No per-phase data is needed for `Idle`.
#[derive(Debug, Clone, Copy, PartialEq, Eq, Structural)]
pub struct IdlePhase;

/// Per-phase data for `Sending`; it carries no state.
#[derive(Debug, Clone, Copy, PartialEq, Eq, Structural)]
pub struct SendingPhase;

/// Streaming bookkeeping that is only meaningful while the LLM is streaming.
///
/// All of it is dropped when the machine leaves `Streaming`.
#[derive(Debug, Clone)]
pub struct StreamingPhase {
    /// History index of the entry receiving stream tokens.
    pub streaming_entry_index: Option<usize>,
    /// History index of the entry receiving thinking tokens.
    pub streaming_thinking_entry_index: Option<usize>,
    /// Stream tool-call index to history index, for in-progress tool calls.
    pub streaming_tool_call_indices: Vec<(usize, usize)>,
    /// Tool-call id to history index, for pending streaming tool results.
    pub streaming_tool_result_indices: Vec<(String, usize)>,
    /// When set, the next stream-completion boundary goes to `Idle` instead of
    /// continuing the tool loop.
    pub soft_cancel_requested: bool,
}

impl StreamingPhase {
    /// A fresh streaming phase: no indices tracked, no soft cancel.
    pub fn new() -> (s: StreamingPhase)
        ensures
            s.streaming_entry_index is None,
            s.streaming_thinking_entry_index is None,
            s.streaming_tool_call_indices@.len() == 0,
            s.streaming_tool_result_indices@.len() == 0,
            !s.soft_cancel_requested,
    {
        StreamingPhase {
            streaming_entry_index: None,
            streaming_thinking_entry_index: None,
            streaming_tool_call_indices: Vec::new(),
            streaming_tool_result_indices: Vec::new(),
            soft_cancel_requested: false,
        }
    }
}

/// The current session phase with its per-phase state.
#[derive(Debug, Clone)]
pub enum Phase {
    /// No LLM request in flight.
    Idle(IdlePhase),
    /// A message was dispatched but no token has arrived yet.
    Sending(SendingPhase),
    /// Tokens are streaming in.
    Streaming(StreamingPhase),
}

/// The discriminant of a phase.
pub open spec fn spec_kind(p: Phase) -> PhaseKind {
    match p {
        Phase::Idle(_) => PhaseKind::Idle,
        Phase::Sending(_) => PhaseKind::Sending,
        Phase::Streaming(_) => PhaseKind::Streaming,
    }
}

impl Phase {
    /// The default phase: `Idle`.
    pub fn idle() -> (p: Phase)
        ensures
            p is Idle,
    {
        Phase::Idle(IdlePhase)
    }

    /// Returns the discriminant without the per-phase data.
    pub fn kind(&self) -> (k: PhaseKind)
        ensures
            k == spec_kind(*self),
    {
        match self {
            Phase::Idle(_) => PhaseKind::Idle,
            Phase::Sending(_) => PhaseKind::Sending,
            Phase::Streaming(_) => PhaseKind::Streaming,
        }
    }

    /// Mutable access to the inner `SendingPhase`, if this is `Sending`.
    pub fn as_sending_mut(&mut self) -> (r: Option<&mut SendingPhase>)
        ensures
            r is Some <==> (*old(self) is Sending),
            *final(self) == *old(self),
    {
        match self {
            Phase::Sending(s) => Some(s),
            _ => None,
        }
    }
}

} // verus!
