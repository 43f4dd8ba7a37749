use jinn_domain::entry::{ChatEntry, ChatEntryId, PinPosition, ToolResultStatus};
use jinn_domain::session::ChatSessionState;
use jinn_domain::skills::parse_loaded_skill_name;

#[test]
fn parses_the_skill_name() {
    assert_eq!(parse_loaded_skill_name("<skill name=\"pdf\" version=\"1\">body").as_deref(), Some("pdf"));
    assert_eq!(parse_loaded_skill_name("<skill name=\"\">").as_deref(), Some(""));
    assert_eq!(parse_loaded_skill_name("<skill name=\"open"), None);
    assert_eq!(parse_loaded_skill_name("<tool name=\"pdf\">"), None);
    assert_eq!(parse_loaded_skill_name(""), None);
}

#[test]
fn loaded_skills_are_pinned_skill_results() {
    let mut s = ChatSessionState::new();
    s.push_entry(
        ChatEntry::tool_result(ChatEntryId(1), "c1", "skill", "<skill name=\"pdf\">...", ToolResultStatus::Success)
            .with_pin(PinPosition::Top),
    );
    s.push_entry(ChatEntry::tool_result(ChatEntryId(2), "c2", "skill", "<skill name=\"unpinned\">", ToolResultStatus::Success));
    s.push_entry(
        ChatEntry::tool_result(ChatEntryId(3), "c3", "bash", "<skill name=\"other-tool\">", ToolResultStatus::Success)
            .with_pin(PinPosition::Top),
    );
    s.push_entry(
        ChatEntry::tool_result(ChatEntryId(4), "c4", "skill", "<skill name=\"pdf\">again", ToolResultStatus::Success)
            .with_pin(PinPosition::Bottom),
    );
    let loaded = s.loaded_skills();
    assert!(loaded.contains("pdf"));
    assert!(!loaded.contains("unpinned"));
    assert!(!loaded.contains("other-tool"));
    assert!(!loaded.is_empty());
}
