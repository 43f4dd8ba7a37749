//! Lightweight session metadata used to index sessions without loading
//! their histories.
use vstd::prelude::*;
use crate::clock::timestamp_now;
use crate::ids::SessionId;
use crate::lifecycle::SessionState;

verus! {

/// The title of a session that has none yet.
pub open spec fn untitled() -> Seq<char> {
    "Untitled Session"@
}

/// Lightweight session metadata for index scanning.
#[derive(Debug, Clone)]
pub struct SessionSummary {
    pub session_id: SessionId,
    /// Human-readable title; "Untitled Session" when the session has none.
    pub title: String,
    /// When the session was last modified.
    pub updated_at: jiff::Timestamp,
    /// When the session was created.
    pub created_at: jiff::Timestamp,
    /// Whether the session is loaded in memory or archived.
    pub session_state: SessionState,
    /// The session this one was forked from; `None` for a root session.
    pub parent_session: Option<SessionId>,
}

/// The title a summary gets when its record has none.
pub fn default_title() -> (t: String)
    ensures
        t@ == untitled(),
{
    String::from_str("Untitled Session")
}

/// The creation time a summary gets when its record has none: now.
pub fn default_timestamp() -> jiff::Timestamp {
    timestamp_now()
}

/// The state a summary gets when its record has none: loaded.
pub fn default_session_state() -> (s: SessionState)
    ensures
        s == SessionState::Loaded,
{
    SessionState::Loaded
}

} // verus!
