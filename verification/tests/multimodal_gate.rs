use jinn_domain::entry::{Attachment, ChatEntry, ChatEntryId, ChatEntryKind};
use jinn_domain::gate::{attachment_gate, ModelsDevData};

fn entry_with_image() -> ChatEntry {
    let mut entry = ChatEntry::user(ChatEntryId(1), "describe this");
    if let ChatEntryKind::User { attachments, .. } = &mut entry.kind {
        attachments.push(Attachment { media_type: "image/png".to_owned(), data: vec![1, 2, 3] });
    }
    entry
}

#[test]
fn allows_text_only_entry_regardless_of_model() {
    let models_dev = ModelsDevData::new();
    let entry = ChatEntry::user(ChatEntryId(1), "hello");
    assert!(attachment_gate(Some("gpt-3.5-turbo"), &entry, &models_dev, ChatEntryId(2)).is_none());
}

#[test]
fn blocks_attachment_on_known_text_only_model() {
    let mut models_dev = ModelsDevData::new();
    models_dev.set_image_support("gpt-3.5-turbo", false);
    let entry = entry_with_image();
    let blocked = attachment_gate(Some("gpt-3.5-turbo"), &entry, &models_dev, ChatEntryId(2));
    assert!(blocked.is_some(), "expected a block error entry");
}

#[test]
fn allows_attachment_on_vision_model() {
    let mut models_dev = ModelsDevData::new();
    models_dev.set_image_support("gpt-4o", true);
    let entry = entry_with_image();
    assert!(attachment_gate(Some("gpt-4o"), &entry, &models_dev, ChatEntryId(2)).is_none());
}

#[test]
fn blocks_attachment_on_unknown_model() {
    let models_dev = ModelsDevData::new();
    let entry = entry_with_image();
    let blocked = attachment_gate(Some("my-custom-llama"), &entry, &models_dev, ChatEntryId(2));
    assert!(
        blocked.is_some(),
        "unknown models must be blocked unless positively confirmed vision-capable"
    );
}

#[test]
fn blocked_error_entry_names_model_and_points_at_models_dev() {
    let models_dev = ModelsDevData::new();
    let entry = entry_with_image();
    let blocked = attachment_gate(Some("my-custom-llama"), &entry, &models_dev, ChatEntryId(2)).expect("blocked");
    let text = match &blocked.kind {
        ChatEntryKind::Error(t) => t.clone(),
        _ => panic!("expected an Error entry"),
    };
    assert!(text.contains("my-custom-llama"), "must name the model id: {text}");
    assert!(text.contains("models.dev"), "must point the user at models.dev / the cache: {text}");
}

#[test]
fn allows_attachment_when_no_provider_configured() {
    let models_dev = ModelsDevData::new();
    let entry = entry_with_image();
    assert!(attachment_gate(None, &entry, &models_dev, ChatEntryId(2)).is_none());
}

#[test]
fn blocked_entry_carries_the_given_id() {
    let models_dev = ModelsDevData::new();
    let entry = entry_with_image();
    let blocked = attachment_gate(Some("m"), &entry, &models_dev, ChatEntryId(77)).expect("blocked");
    assert_eq!(blocked.id, ChatEntryId(77));
}

#[test]
fn later_image_support_setting_wins() {
    let mut models_dev = ModelsDevData::new();
    models_dev.set_image_support("m", false);
    models_dev.set_image_support("m", true);
    assert_eq!(models_dev.supports_images("m"), Some(true));
    assert_eq!(models_dev.supports_images("other"), None);
}
