use jinn_domain::entry::{ChatEntry, ChatEntryId, ChatEntryKind};
use jinn_domain::profile::ModelSelection;
use jinn_domain::session::ChatSessionState;
use jinn_domain::session_restore::startup_load_order;
use jinn_domain::persona_picker::persona_picker_rows;
use std::collections::HashSet;

fn single(name: &str) -> ModelSelection {
    ModelSelection::Single(name.to_owned())
}

fn model_name(s: &ChatSessionState) -> String {
    match s.model_selection() {
        ModelSelection::Single(n) | ModelSelection::Alloy(n) => n.clone(),
    }
}

#[test]
fn last_model_applies_to_a_session_without_provider() {
    let mut s = ChatSessionState::new();
    assert!(s.model_selection().is_no_provider());
    s.apply_last_model(Some(single("ollama/llama3")));
    assert_eq!(model_name(&s), "ollama/llama3");
}

#[test]
fn last_model_does_not_override_an_explicit_model() {
    let mut s = ChatSessionState::new();
    s.set_model(single("bench/model"));
    s.apply_last_model(Some(single("ollama/llama3")));
    assert_eq!(model_name(&s), "bench/model");
    s.apply_last_model(None);
    assert_eq!(model_name(&s), "bench/model");
}

#[test]
fn alloy_is_never_the_sentinel() {
    assert!(!ModelSelection::Alloy("no-provider".to_owned()).is_no_provider());
    assert!(ModelSelection::no_provider().is_no_provider());
}

#[test]
fn loaded_session_without_provider_takes_the_saved_model() {
    let mut s = ChatSessionState::new();
    s.restore_loaded_model(Some(single("openai/gpt")));
    assert_eq!(model_name(&s), "openai/gpt");
    assert!(s.has_interacted());
}

#[test]
fn loaded_session_keeps_its_own_model() {
    let mut s = ChatSessionState::new();
    s.set_model(single("kept"));
    s.restore_loaded_model(Some(single("openai/gpt")));
    assert_eq!(model_name(&s), "kept");
    assert!(s.has_interacted());
}

#[test]
fn loaded_session_without_saved_model_stays_without_provider() {
    let mut s = ChatSessionState::new();
    s.restore_loaded_model(None);
    assert!(s.model_selection().is_no_provider());
}

#[test]
fn existing_cwd_is_kept() {
    let mut s = ChatSessionState::new();
    s.set_cwd("/work".to_owned());
    s.settle_cwd(true, "/home".to_owned());
    assert_eq!(s.cwd(), "/work");
    assert!(s.history().is_empty());
}

#[test]
fn missing_cwd_falls_back_with_a_warning() {
    let mut s = ChatSessionState::new();
    s.push_entry(ChatEntry::user(ChatEntryId(1), "hi"));
    s.set_cwd("/gone".to_owned());
    s.settle_cwd(false, "/home".to_owned());
    assert_eq!(s.cwd(), "/home");
    assert_eq!(s.history().len(), 2);
    assert!(matches!(
        &s.history()[1].kind,
        ChatEntryKind::System(t) if t == "Warning: working directory '/gone' not found, falling back to '/home'"
    ));
}

#[test]
fn startup_loads_the_most_recent_first() {
    let order = startup_load_order(&vec![(1, 100), (2, 300), (3, 200)]);
    assert_eq!(order, vec![2, 3, 1]);
}

#[test]
fn sessions_updated_together_keep_their_order() {
    let order = startup_load_order(&vec![(7, 5), (8, 9), (9, 5), (10, 9), (11, -3)]);
    assert_eq!(order, vec![8, 10, 7, 9, 11]);
    assert!(startup_load_order(&Vec::new()).is_empty());
}

#[test]
fn handle_load_persona_picker_entries_populates_picker() {
    let names = vec!["coding-assistant".to_owned(), "learning-tutor".to_owned()];
    let rows = persona_picker_rows(&names, Some("learning-tutor"));
    assert_eq!(rows.len(), 2);
    let active: Vec<&(usize, bool)> = rows.iter().filter(|r| r.1).collect();
    assert_eq!(active.len(), 1);
    assert_eq!(names[active[0].0], "learning-tutor");
}

#[test]
fn persona_rows_ignore_case_and_keep_ties_in_order() {
    let names = vec!["Zed".to_owned(), "alpha".to_owned(), "Beta".to_owned(), "ALPHA".to_owned()];
    let rows = persona_picker_rows(&names, None);
    assert_eq!(rows, vec![(1, false), (3, false), (2, false), (0, false)]);
}

#[test]
fn tree_members_needing_snapshots_skip_live_and_snapshotted_ones() {
    let tree = vec![1u64, 2, 3, 4, 5];
    let live: HashSet<u64> = [2u64].into_iter().collect();
    let snap: HashSet<u64> = [4u64, 9].into_iter().collect();
    assert_eq!(jinn_domain::tree::members_needing_snapshot(&tree, &live, &snap), vec![1, 3, 5]);
}

#[test]
fn new_sessions_start_in_the_current_directory() {
    assert_eq!(jinn_domain::session::default_cwd(), ".");
    assert_eq!(ChatSessionState::new().cwd(), ".");
}
