//! Session residency and the lifecycle-script progression.
use vstd::prelude::*;

verus! {

/// Whether a session is in memory or at rest in the database.
///
/// `Loaded` sessions appear in the sidebar and are available for interaction.
/// `Archived` sessions exist only in the database and are hidden from the sidebar.
#[derive(Debug, Clone, Copy, PartialEq, Eq, Structural, PartialOrd, Ord, Hash)]
pub enum SessionState {
    Loaded,
    Archived,
}

impl SessionState {
    /// The default residency: `Loaded`.
    pub fn default_state() -> (s: SessionState)
        ensures
            s == SessionState::Loaded,
    {
        SessionState::Loaded
    }
}

/// The lifecycle script progression for a session.
///
/// One-way transitions: `NothingRan -> SetupRan -> TeardownRan`.
#[derive(Debug, Clone, Copy, PartialEq, Eq, Structural, Hash)]
pub enum LifecycleScriptState {
    NothingRan,
    SetupRan,
    TeardownRan,
}

/// Position of a lifecycle state along the one-way progression.
pub open spec fn lifecycle_rank(s: LifecycleScriptState) -> nat {
    match s {
        LifecycleScriptState::NothingRan => 0,
        LifecycleScriptState::SetupRan => 1,
        LifecycleScriptState::TeardownRan => 2,
    }
}

/// The state `advance_after_setup` leads to.
pub open spec fn after_setup(s: LifecycleScriptState) -> LifecycleScriptState {
    if s == LifecycleScriptState::NothingRan {
        LifecycleScriptState::SetupRan
    } else {
        s
    }
}

/// The state `advance_after_teardown` leads to.
pub open spec fn after_teardown(s: LifecycleScriptState) -> LifecycleScriptState {
    if s == LifecycleScriptState::SetupRan {
        LifecycleScriptState::TeardownRan
    } else {
        s
    }
}

impl LifecycleScriptState {
    /// The initial state: no script has run.
    pub fn initial() -> (s: LifecycleScriptState)
        ensures
            s == LifecycleScriptState::NothingRan,
    {
        LifecycleScriptState::NothingRan
    }

    /// Transition `NothingRan -> SetupRan`; any other state is left as it is.
    pub fn advance_after_setup(&mut self)
        ensures
            *final(self) == after_setup(*old(self)),
    {
        if *self == LifecycleScriptState::NothingRan {
            *self = LifecycleScriptState::SetupRan;
        }
    }

    /// Transition `SetupRan -> TeardownRan`; any other state is left as it is.
    pub fn advance_after_teardown(&mut self)
        ensures
            *final(self) == after_teardown(*old(self)),
    {
        if *self == LifecycleScriptState::SetupRan {
            *self = LifecycleScriptState::TeardownRan;
        }
    }
}

/// The lifecycle progression never moves backwards: each advance keeps or
/// raises the rank, and it raises it by at most one step.
pub proof fn lemma_lifecycle_one_way(s: LifecycleScriptState)
    ensures
        lifecycle_rank(s) <= lifecycle_rank(after_setup(s)) <= lifecycle_rank(s) + 1,
        lifecycle_rank(s) <= lifecycle_rank(after_teardown(s)) <= lifecycle_rank(s) + 1,
{
}

/// Setup can only be recorded once, and teardown only after setup: applying an
/// advance twice is the same as applying it once, and teardown from a state
/// where setup has not run leaves the state untouched.
pub proof fn lemma_lifecycle_idempotent(s: LifecycleScriptState)
    ensures
        after_setup(after_setup(s)) == after_setup(s),
        after_teardown(after_teardown(s)) == after_teardown(s),
        s == LifecycleScriptState::NothingRan ==> after_teardown(s) == s,
        after_teardown(after_setup(LifecycleScriptState::NothingRan))
            == LifecycleScriptState::TeardownRan,
{
}

/// Serde default for the `persist` flag: sessions persist unless explicitly
/// marked transient.
pub fn default_persist() -> (b: bool)
    ensures
        b,
{
    true
}

} // verus!
