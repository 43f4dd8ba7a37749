use jinn_domain::entry::ChatEntryKind;
use jinn_domain::refresh::build_models_refresh_table;
use jinn_domain::session::ChatSessionState;

const HEADER: &str = "| Provider | Models | Status |\n|----------|--------|--------|\n";

#[test]
fn build_models_refresh_table_includes_provider_and_model_count() {
    let results = vec![("ollama".to_owned(), 2usize)];
    let table = build_models_refresh_table(&results, &Vec::new());
    assert!(table.contains("ollama"));
    assert!(table.contains('2'));
    assert!(table.contains("✅"));
    assert_eq!(table, format!("{HEADER}| ollama | 2 | ✅ |\n"));
}

#[test]
fn rows_come_in_name_order_with_each_provider_once() {
    let results = vec![("openai".to_owned(), 12usize), ("anthropic".to_owned(), 3usize)];
    let errors = vec![("groq".to_owned(), "timeout".to_owned()), ("openai".to_owned(), "ignored".to_owned())];
    let table = build_models_refresh_table(&results, &errors);
    assert_eq!(
        table,
        format!("{HEADER}| anthropic | 3 | ✅ |\n| groq | 0 | ❌ timeout |\n| openai | 12 | ✅ |\n")
    );
}

#[test]
fn names_compare_by_code_point_not_by_case() {
    let results = vec![("b".to_owned(), 1usize), ("B".to_owned(), 1usize), ("ab".to_owned(), 1usize), ("a".to_owned(), 1usize)];
    let table = build_models_refresh_table(&results, &Vec::new());
    assert_eq!(table, format!("{HEADER}| B | 1 | ✅ |\n| a | 1 | ✅ |\n| ab | 1 | ✅ |\n| b | 1 | ✅ |\n"));
}

#[test]
fn on_models_refreshed_pushes_transient_entry() {
    let mut s = ChatSessionState::new();
    s.note_models_refreshed(&vec![("ollama".to_owned(), 1usize)], &Vec::new());
    assert_eq!(s.history().len(), 1);
    assert!(matches!(&s.history()[0].kind, ChatEntryKind::Transient(t) if t.contains("ollama")));
}

#[test]
fn on_models_refreshed_empty_results_shows_no_providers_message() {
    let mut s = ChatSessionState::new();
    let text = s.note_models_refreshed(&Vec::new(), &Vec::new());
    assert_eq!(text, "Models refreshed: no providers found");
    assert!(matches!(&s.history()[0].kind, ChatEntryKind::Transient(t) if t.contains("no providers found")));
}

#[test]
fn on_models_refreshed_with_errors_shows_table() {
    let mut s = ChatSessionState::new();
    s.note_models_refreshed(&Vec::new(), &vec![("openai".to_owned(), "API key not resolved".to_owned())]);
    assert!(matches!(
        &s.history()[0].kind,
        ChatEntryKind::Transient(t) if t.contains("openai") && t.contains("API key not resolved")
    ));
}
