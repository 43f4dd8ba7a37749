use jinn_domain::decisions::{
    build_skills_refresh_message, format_decimal, pending_migrations, select_persona, PersonaContext, skills_loaded_notice,
    LATEST_SCHEMA_VERSION,
};
use jinn_domain::phase::PhaseKind;
use jinn_domain::protocol::phase_changed_event;
use jinn_domain::summary::{default_session_state, default_title};
use jinn_domain::lifecycle::SessionState;

fn names(v: &[&str]) -> Vec<String> {
    v.iter().map(|s| s.to_string()).collect()
}

#[test]
fn persona_prefers_the_requested_name() {
    let list = names(&["poet", "coding-assistant", "critic"]);
    assert_eq!(select_persona(&list, Some("critic"), Some("poet")), Some(2));
}

#[test]
fn persona_keeps_the_active_one_when_the_request_is_unknown() {
    let list = names(&["poet", "coding-assistant"]);
    assert_eq!(select_persona(&list, Some("ghost"), Some("poet")), Some(0));
    assert_eq!(select_persona(&list, None, Some("poet")), Some(0));
}

#[test]
fn persona_falls_back_to_coding_assistant() {
    let list = names(&["poet", "coding-assistant"]);
    assert_eq!(select_persona(&list, None, Some("gone")), Some(1));
    assert_eq!(select_persona(&list, None, None), Some(1));
}

#[test]
fn persona_uses_the_first_when_coding_assistant_is_missing() {
    let list = names(&["poet", "critic"]);
    assert_eq!(select_persona(&list, None, None), Some(0));
}

#[test]
fn persona_is_cleared_for_an_empty_list() {
    assert_eq!(select_persona(&Vec::new(), Some("x"), Some("y")), None);
}

#[test]
fn decimal_formatting() {
    assert_eq!(format_decimal(0), "0");
    assert_eq!(format_decimal(7), "7");
    assert_eq!(format_decimal(10), "10");
    assert_eq!(format_decimal(90210), "90210");
}

#[test]
fn skills_message_lists_names() {
    let list = names(&["pdf", "lint"]);
    assert_eq!(build_skills_refresh_message(&list), "Skills refreshed: 2 found\n\n- pdf\n- lint\n");
}

#[test]
fn skills_notice_variants() {
    assert_eq!(skills_loaded_notice(Some("boom"), &Vec::new()), "Skills refresh failed: boom");
    assert_eq!(skills_loaded_notice(None, &Vec::new()), "Skills refreshed: no skills found");
    assert_eq!(skills_loaded_notice(None, &names(&["a"])), "Skills refreshed: 1 found\n\n- a\n");
}

#[test]
fn migrations_due_are_those_above_the_current_version() {
    let fresh = pending_migrations(-1);
    assert_eq!(fresh.len(), 21);
    assert_eq!(fresh[0].version, 0);
    assert_eq!(fresh[0].name, "create_initial_schema");
    let some = pending_migrations(17);
    let versions: Vec<i32> = some.iter().map(|m| m.version).collect();
    assert_eq!(versions, vec![18, 19, 20]);
    assert_eq!(some[0].name, "rename_entries_timestamp_to_timing");
    assert!(pending_migrations(LATEST_SCHEMA_VERSION).is_empty());
    assert!(pending_migrations(99).is_empty());
}

#[test]
fn phase_change_event_only_on_change() {
    assert!(phase_changed_event(7, PhaseKind::Idle, PhaseKind::Idle).is_none());
    let e = phase_changed_event(7, PhaseKind::Idle, PhaseKind::Sending).expect("changed");
    assert_eq!(e.session_id, 7);
    assert_eq!(e.old_phase, PhaseKind::Idle);
    assert_eq!(e.new_phase, PhaseKind::Sending);
}

#[test]
fn summary_defaults() {
    assert_eq!(default_title(), "Untitled Session");
    assert_eq!(default_session_state(), SessionState::Loaded);
}

fn strings(v: &[&str]) -> Vec<String> {
    v.iter().map(|s| s.to_string()).collect()
}

#[test]
fn persona_scan_error_changes_nothing() {
    let mut ctx = PersonaContext { personas: strings(&["poet"]), active: Some("poet".to_owned()) };
    ctx.on_personas_loaded(strings(&["critic"]), Some("disk".to_owned()), Some("critic"));
    assert_eq!(ctx.personas, strings(&["poet"]));
    assert_eq!(ctx.active.as_deref(), Some("poet"));
}

#[test]
fn personas_loaded_keeps_the_active_one_when_still_listed() {
    let mut ctx = PersonaContext { personas: Vec::new(), active: Some("poet".to_owned()) };
    ctx.on_personas_loaded(strings(&["coding-assistant", "poet"]), None, Some("ghost"));
    assert_eq!(ctx.personas, strings(&["coding-assistant", "poet"]));
    assert_eq!(ctx.active.as_deref(), Some("poet"));
    ctx.on_personas_loaded(strings(&["critic", "coding-assistant"]), None, None);
    assert_eq!(ctx.active.as_deref(), Some("coding-assistant"));
    ctx.on_personas_loaded(strings(&["critic", "judge"]), None, None);
    assert_eq!(ctx.active.as_deref(), Some("critic"));
    ctx.on_personas_loaded(Vec::new(), None, Some("critic"));
    assert_eq!(ctx.active, None);
}
