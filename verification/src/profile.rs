//! Per-session model and persona selection.
use vstd::prelude::*;
use vstd::string::*;
use crate::strset::StringSet;

verus! {

/// Persona used when none is explicitly set.
pub const DEFAULT_PERSONA_NAME: &'static str = "coding-assistant";

/// Model id meaning that no provider has been chosen yet.
pub const NO_PROVIDER_ID: &'static str = "no-provider";

/// The model a session talks to: a single model, or a named alloy of models.
#[derive(Debug, Clone)]
pub enum ModelSelection {
    Single(String),
    Alloy(String),
}

impl ModelSelection {
    /// The default selection: `Single(NO_PROVIDER_ID)`; the user must pick a
    /// model.
    pub fn no_provider() -> (m: ModelSelection)
        ensures
            m matches ModelSelection::Single(s) && s@ == NO_PROVIDER_ID@,
    {
        ModelSelection::Single(String::from_str(NO_PROVIDER_ID))
    }
}

/// Serde default for `persona_name`: `"coding-assistant"`.
pub fn default_persona_name() -> (s: String)
    ensures
        s@ == DEFAULT_PERSONA_NAME@,
{
    String::from_str(DEFAULT_PERSONA_NAME)
}

/// Per-session model and persona selection, with the tools and skills the
/// user disabled (opt-out: an empty set enables everything).
#[derive(Debug, Clone)]
pub struct SessionProfile {
    pub model: ModelSelection,
    pub persona_name: String,
    pub disabled_tools: StringSet,
    pub disabled_skills: StringSet,
}

impl SessionProfile {
    /// No provider, the default persona, nothing disabled.
    pub fn default_profile() -> (p: SessionProfile)
        ensures
            p.model matches ModelSelection::Single(s) && s@ == NO_PROVIDER_ID@,
            p.persona_name@ == DEFAULT_PERSONA_NAME@,
            p.disabled_tools@ == Set::<Seq<char>>::empty() && p.disabled_tools.wf(),
            p.disabled_skills@ == Set::<Seq<char>>::empty() && p.disabled_skills.wf(),
    {
        SessionProfile {
            model: ModelSelection::no_provider(),
            persona_name: default_persona_name(),
            disabled_tools: StringSet::new(),
            disabled_skills: StringSet::new(),
        }
    }

    /// A profile seeded from a configured single model.
    pub fn from_config(model: String) -> (p: SessionProfile)
        ensures
            p.model == ModelSelection::Single(model),
            p.persona_name@ == DEFAULT_PERSONA_NAME@,
            p.disabled_tools@ == Set::<Seq<char>>::empty() && p.disabled_tools.wf(),
            p.disabled_skills@ == Set::<Seq<char>>::empty() && p.disabled_skills.wf(),
    {
        SessionProfile {
            model: ModelSelection::Single(model),
            persona_name: default_persona_name(),
            disabled_tools: StringSet::new(),
            disabled_skills: StringSet::new(),
        }
    }

    /// A profile for a model selection (single model or alloy).
    pub fn from_model_selection(model: ModelSelection) -> (p: SessionProfile)
        ensures
            p.model == model,
            p.persona_name@ == DEFAULT_PERSONA_NAME@,
            p.disabled_tools@ == Set::<Seq<char>>::empty() && p.disabled_tools.wf(),
            p.disabled_skills@ == Set::<Seq<char>>::empty() && p.disabled_skills.wf(),
    {
        SessionProfile {
            model,
            persona_name: default_persona_name(),
            disabled_tools: StringSet::new(),
            disabled_skills: StringSet::new(),
        }
    }

    /// A profile with every field given.
    pub fn new(
        model: ModelSelection,
        persona_name: String,
        disabled_tools: StringSet,
        disabled_skills: StringSet,
    ) -> (p: SessionProfile)
        ensures
            p.model == model,
            p.persona_name == persona_name,
            p.disabled_tools == disabled_tools,
            p.disabled_skills == disabled_skills,
    {
        SessionProfile { model, persona_name, disabled_tools, disabled_skills }
    }
}

} // verus!
