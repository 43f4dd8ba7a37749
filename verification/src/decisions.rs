//! Decisions the session actor takes on incoming events, as functions from
//! plain values to plain values: which persona becomes active, what a skill
//! refresh reports, and which schema migrations are still due.
use vstd::prelude::*;
use vstd::string::*;

verus! {

/// The persona chosen when nothing else applies.
pub open spec fn fallback_persona() -> Seq<char> {
    "coding-assistant"@
}

/// Whether some persona in `names` is called `n`.
pub open spec fn has_persona(names: Seq<String>, n: Seq<char>) -> bool {
    exists|i: int| 0 <= i < names.len() && #[trigger] names[i]@ == n
}

/// The name the selection looks for: the preferred name when listed, else
/// the active persona when still listed, else the fallback.
pub open spec fn persona_target(names: Seq<String>, preferred: Option<Seq<char>>, active: Option<Seq<char>>) -> Seq<char> {
    match preferred {
        Some(p) if has_persona(names, p) => p,
        _ => match active {
            Some(a) if has_persona(names, a) => a,
            _ => fallback_persona(),
        },
    }
}

/// `i` is the first position of a persona called `n`.
pub open spec fn first_persona(names: Seq<String>, n: Seq<char>, i: int) -> bool {
    &&& 0 <= i < names.len()
    &&& names[i]@ == n
    &&& forall|j: int| 0 <= j < i ==> #[trigger] names[j]@ != n
}

/// Chooses the active persona among the loaded `names`: the preferred name
/// when listed, else the currently active persona when still listed, else
/// "coding-assistant"; when the name looked for is not listed, the first
/// persona; none when the list is empty. Returns the chosen position.
pub fn select_persona(names: &Vec<String>, preferred: Option<&str>, active: Option<&str>) -> (r: Option<usize>)
    ensures
        ({
            let target = persona_target(
                names@,
                match preferred { Some(p) => Some(p@), None => None },
                match active { Some(a) => Some(a@), None => None },
            );
            &&& has_persona(names@, target) ==> (r matches Some(i) && first_persona(names@, target, i as int))
            &&& !has_persona(names@, target) ==> r == if names@.len() == 0 { None } else { Some(0usize) }
        }),
{
    let target: String = match preferred {
        Some(p) if position_of(names, p).is_some() => String::from_str(p),
        _ => match active {
            Some(a) if position_of(names, a).is_some() => String::from_str(a),
            _ => String::from_str("coding-assistant"),
        },
    };
    match position_of(names, target.as_str()) {
        Some(i) => Some(i),
        None => if names.len() == 0 {
            None
        } else {
            Some(0)
        },
    }
}

/// The personas known to the session context: the loaded names, in order,
/// and the name of the active persona.
#[derive(Debug, Clone)]
pub struct PersonaContext {
    pub personas: Vec<String>,
    pub active: Option<String>,
}

impl PersonaContext {
    /// Takes the result of a persona scan. A scan that reported an error
    /// changes nothing. Otherwise the loaded `names` replace the known ones
    /// and the active persona is chosen as [`select_persona`] does, with
    /// `preferred` from the app state and the current active name.
    pub fn on_personas_loaded(&mut self, names: Vec<String>, error: Option<String>, preferred: Option<&str>)
        ensures
            error is Some ==> *final(self) == *old(self),
            error is None ==> {
                let target = persona_target(
                    names@,
                    match preferred { Some(p) => Some(p@), None => None },
                    match old(self).active { Some(a) => Some(a@), None => None },
                );
                &&& final(self).personas@ == names@
                &&& has_persona(names@, target) ==> (final(self).active matches Some(a) && a@ == target)
                &&& !has_persona(names@, target) ==> if names@.len() == 0 {
                    final(self).active is None
                } else {
                    final(self).active matches Some(a) && a@ == names@[0]@
                }
            },
    {
        if error.is_some() {
            return;
        }
        let chosen = match &self.active {
            Some(a) => select_persona(&names, preferred, Some(a.as_str())),
            None => select_persona(&names, preferred, None),
        };
        let active = match chosen {
            Some(i) => Some(names[i].clone()),
            None => None,
        };
        self.personas = names;
        self.active = active;
    }
}

/// The first position of `n` in `names`.
fn position_of(names: &Vec<String>, n: &str) -> (r: Option<usize>)
    ensures
        match r {
            Some(i) => first_persona(names@, n@, i as int),
            None => !has_persona(names@, n@),
        },
{
    let key = String::from_str(n);
    let len = names.len();
    let mut i: usize = 0;
    while i < len
        invariant
            len == names@.len(),
            i <= len,
            key@ == n@,
            forall|j: int| 0 <= j < i ==> #[trigger] names@[j]@ != n@,
        decreases len - i,
    {
        if names[i] == key {
            return Some(i);
        }
        i = i + 1;
    }
    None
}

/// The decimal digit for `d`.
pub open spec fn digit_char(d: int) -> char {
    if d == 0 { '0' } else if d == 1 { '1' } else if d == 2 { '2' } else if d == 3 { '3' } else if d == 4 {
        '4'
    } else if d == 5 { '5' } else if d == 6 { '6' } else if d == 7 { '7' } else if d == 8 { '8' } else { '9' }
}

/// The decimal representation of `n`, without leading zeros.
pub open spec fn decimal(n: nat) -> Seq<char>
    decreases n,
{
    if n < 10 {
        seq![digit_char(n as int)]
    } else {
        decimal(n / 10).push(digit_char((n % 10) as int))
    }
}

fn digit_str(d: u64) -> (s: &'static str)
    requires
        d < 10,
    ensures
        s@ == seq![digit_char(d as int)],
{
    proof {
        reveal_strlit("0");
        reveal_strlit("1");
        reveal_strlit("2");
        reveal_strlit("3");
        reveal_strlit("4");
        reveal_strlit("5");
        reveal_strlit("6");
        reveal_strlit("7");
        reveal_strlit("8");
        reveal_strlit("9");
    }
    if d == 0 { "0" } else if d == 1 { "1" } else if d == 2 { "2" } else if d == 3 { "3" } else if d == 4 {
        "4"
    } else if d == 5 { "5" } else if d == 6 { "6" } else if d == 7 { "7" } else if d == 8 { "8" } else { "9" }
}

/// Formats `n` in decimal.
pub fn format_decimal(n: u64) -> (s: String)
    ensures
        s@ == decimal(n as nat),
    decreases n,
{
    if n < 10 {
        String::from_str(digit_str(n))
    } else {
        let mut s = format_decimal(n / 10);
        s.append(digit_str(n % 10));
        s
    }
}

/// The lines listing skill names, each as "- name" and a newline.
pub open spec fn skill_lines(names: Seq<String>) -> Seq<char>
    decreases names.len(),
{
    if names.len() == 0 {
        Seq::empty()
    } else {
        skill_lines(names.drop_last()) + "- "@ + names.last()@ + "\n"@
    }
}

/// The message after a successful skill refresh: the count, a blank line,
/// then one "- name" line per skill.
pub open spec fn skills_refresh_text(names: Seq<String>) -> Seq<char> {
    "Skills refreshed: "@ + decimal(names.len()) + " found\n\n"@ + skill_lines(names)
}

/// Builds the message listing the skills found by a refresh.
pub fn build_skills_refresh_message(names: &Vec<String>) -> (msg: String)
    ensures
        msg@ == skills_refresh_text(names@),
{
    let mut msg = String::from_str("Skills refreshed: ");
    let count = format_decimal(names.len() as u64);
    msg.append(count.as_str());
    msg.append(" found\n\n");
    let ghost head = msg@;
    let n = names.len();
    let mut i: usize = 0;
    while i < n
        invariant
            n == names@.len(),
            i <= n,
            msg@ == head + skill_lines(names@.subrange(0, i as int)),
        decreases n - i,
    {
        proof {
            assert(names@.subrange(0, i + 1).drop_last() == names@.subrange(0, i as int));
            assert(names@.subrange(0, i + 1).last() == names@[i as int]);
        }
        msg.append("- ");
        msg.append(names[i].as_str());
        msg.append("\n");
        proof {
            assert(msg@ == head + skill_lines(names@.subrange(0, i + 1)));
        }
        i = i + 1;
    }
    proof {
        assert(names@.subrange(0, n as int) == names@);
    }
    msg
}

/// The notice shown after a skill refresh: the failure, or that no skill
/// was found, or the list of skills found.
pub open spec fn skills_notice_text(error: Option<Seq<char>>, names: Seq<String>) -> Seq<char> {
    match error {
        Some(e) => "Skills refresh failed: "@ + e,
        None => if names.len() == 0 {
            "Skills refreshed: no skills found"@
        } else {
            skills_refresh_text(names)
        },
    }
}

/// Builds the notice shown after a skill refresh.
pub fn skills_loaded_notice(error: Option<&str>, names: &Vec<String>) -> (msg: String)
    ensures
        msg@ == skills_notice_text(match error { Some(e) => Some(e@), None => None }, names@),
{
    match error {
        Some(e) => {
            let mut msg = String::from_str("Skills refresh failed: ");
            msg.append(e);
            msg
        },
        None => if names.len() == 0 {
            String::from_str("Skills refreshed: no skills found")
        } else {
            build_skills_refresh_message(names)
        },
    }
}

/// A schema migration: its version and name.
#[derive(Debug, Clone, Copy)]
pub struct MigrationStep {
    pub version: i32,
    pub name: &'static str,
}

/// The highest schema version.
pub const LATEST_SCHEMA_VERSION: i32 = 20;

/// The migrations still due on a database at schema version `current`
/// (`-1` for a fresh database): every version above it, in order.
pub fn pending_migrations(current: i32) -> (steps: Vec<MigrationStep>)
    ensures
        steps@.len() == if current < 0 { 21 } else if current >= 20 { 0 } else { 20 - current },
        forall|i: int| 0 <= i < steps@.len() ==> (#[trigger] steps@[i]).version == (if current < 0 { 0 } else { current + 1 }) + i,
        forall|i: int| 0 <= i < steps@.len() ==> (#[trigger] steps@[i]).name@ == migration_name(steps@[i].version as int),
{
    let all = migration_steps();
    let mut steps: Vec<MigrationStep> = Vec::new();
    let mut i: usize = 0;
    while i < all.len()
        invariant
            all@.len() == 21,
            forall|k: int| 0 <= k < 21 ==> (#[trigger] all@[k]).version == k,
            forall|k: int| 0 <= k < 21 ==> (#[trigger] all@[k]).name@ == migration_name(k),
            i <= all@.len(),
            steps@.len() == if current < 0 { i as int } else if i as int <= current + 1 { 0 } else { i - (current + 1) },
            forall|k: int| 0 <= k < steps@.len() ==> (#[trigger] steps@[k]).version == (if current < 0 { 0 } else { current + 1 }) + k,
            forall|k: int| 0 <= k < steps@.len() ==> (#[trigger] steps@[k]).name@ == migration_name(steps@[k].version as int),
        decreases all@.len() - i,
    {
        if all[i].version > current {
            steps.push(all[i]);
        }
        i = i + 1;
    }
    steps
}

/// The name recorded for schema version `v`.
pub open spec fn migration_name(v: int) -> Seq<char> {
    if v == 0 {
        "create_initial_schema"@
    } else if v == 1 {
        "add_cwd_column"@
    } else if v == 2 {
        "add_created_at_column"@
    } else if v == 3 {
        "add_ignored_to_session_entries"@
    } else if v == 4 {
        "add_cost_to_token_ledger"@
    } else if v == 5 {
        "add_lifecycle_columns_to_sessions"@
    } else if v == 6 {
        "add_archived_column"@
    } else if v == 7 {
        "add_lifecycle_script_state_column"@
    } else if v == 8 {
        "add_metadata_column"@
    } else if v == 9 {
        "rename_session_entries_to_session_history"@
    } else if v == 10 {
        "consolidate_to_compaction_strategy"@
    } else if v == 11 {
        "add_is_workflow_column"@
    } else if v == 12 {
        "replace_ignored_with_context_override"@
    } else if v == 13 {
        "add_judge_meta_column"@
    } else if v == 14 {
        "add_context_history"@
    } else if v == 15 {
        "drop_strategy_state_column"@
    } else if v == 16 {
        "rename_is_workflow_to_is_automated_and_add_persist"@
    } else if v == 17 {
        "rewrite_model_to_model_selection_and_add_model_used"@
    } else if v == 18 {
        "rename_entries_timestamp_to_timing"@
    } else if v == 19 {
        "rewrite_metadata_blob_profile_model"@
    } else {
        "drop_zombie_columns_backfill_metadata"@
    }
}

/// Every schema migration, in version order.
fn migration_steps() -> (all: Vec<MigrationStep>)
    ensures
        all@.len() == 21,
        forall|k: int| 0 <= k < 21 ==> (#[trigger] all@[k]).version == k,
        forall|k: int| 0 <= k < 21 ==> (#[trigger] all@[k]).name@ == migration_name(k),
{
    proof {
        reveal_strlit("create_initial_schema");
        reveal_strlit("add_cwd_column");
        reveal_strlit("add_created_at_column");
        reveal_strlit("add_ignored_to_session_entries");
        reveal_strlit("add_cost_to_token_ledger");
        reveal_strlit("add_lifecycle_columns_to_sessions");
        reveal_strlit("add_archived_column");
        reveal_strlit("add_lifecycle_script_state_column");
        reveal_strlit("add_metadata_column");
        reveal_strlit("rename_session_entries_to_session_history");
        reveal_strlit("consolidate_to_compaction_strategy");
        reveal_strlit("add_is_workflow_column");
        reveal_strlit("replace_ignored_with_context_override");
        reveal_strlit("add_judge_meta_column");
        reveal_strlit("add_context_history");
        reveal_strlit("drop_strategy_state_column");
        reveal_strlit("rename_is_workflow_to_is_automated_and_add_persist");
        reveal_strlit("rewrite_model_to_model_selection_and_add_model_used");
        reveal_strlit("rename_entries_timestamp_to_timing");
        reveal_strlit("rewrite_metadata_blob_profile_model");
        reveal_strlit("drop_zombie_columns_backfill_metadata");
    }
    let all = vec![
        MigrationStep { version: 0, name: "create_initial_schema" },
        MigrationStep { version: 1, name: "add_cwd_column" },
        MigrationStep { version: 2, name: "add_created_at_column" },
        MigrationStep { version: 3, name: "add_ignored_to_session_entries" },
        MigrationStep { version: 4, name: "add_cost_to_token_ledger" },
        MigrationStep { version: 5, name: "add_lifecycle_columns_to_sessions" },
        MigrationStep { version: 6, name: "add_archived_column" },
        MigrationStep { version: 7, name: "add_lifecycle_script_state_column" },
        MigrationStep { version: 8, name: "add_metadata_column" },
        MigrationStep { version: 9, name: "rename_session_entries_to_session_history" },
        MigrationStep { version: 10, name: "consolidate_to_compaction_strategy" },
        MigrationStep { version: 11, name: "add_is_workflow_column" },
        MigrationStep { version: 12, name: "replace_ignored_with_context_override" },
        MigrationStep { version: 13, name: "add_judge_meta_column" },
        MigrationStep { version: 14, name: "add_context_history" },
        MigrationStep { version: 15, name: "drop_strategy_state_column" },
        MigrationStep { version: 16, name: "rename_is_workflow_to_is_automated_and_add_persist" },
        MigrationStep { version: 17, name: "rewrite_model_to_model_selection_and_add_model_used" },
        MigrationStep { version: 18, name: "rename_entries_timestamp_to_timing" },
        MigrationStep { version: 19, name: "rewrite_metadata_blob_profile_model" },
        MigrationStep { version: 20, name: "drop_zombie_columns_backfill_metadata" },
    ];
    all
}

} // verus!
