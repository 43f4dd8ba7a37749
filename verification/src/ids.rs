//! Identifiers shared across the session modules.
use vstd::prelude::*;

verus! {

/// Identifier of a chat session.
pub type SessionId = u64;

} // verus!
