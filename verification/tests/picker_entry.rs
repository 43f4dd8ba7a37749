use jinn_domain::lifecycle::SessionState;
use jinn_domain::picker_entry::{format_row_date, SessionTreeEntry};

fn ts(secs: i64) -> jiff::Timestamp {
    jiff::Timestamp::from_second(secs).unwrap()
}

#[test]
fn tree_item_id_returns_session_id_string() {
    let entry = SessionTreeEntry::new(42, "Title".to_owned(), ts(0), SessionState::Loaded, None);
    assert_eq!(entry.id(), 42u64.to_string());
    assert!(entry.parent_id().is_none());
    assert_eq!(entry.display_label(), "Title");
}

#[test]
fn tree_item_parent_id_returns_string() {
    let entry = SessionTreeEntry::new(7, "Child".to_owned(), ts(0), SessionState::Loaded, Some(1234567890123));
    assert_eq!(entry.parent_id(), Some(1234567890123u64.to_string().as_str()));
}

#[test]
fn archived_entry_renders_dimmed() {
    let archived = SessionTreeEntry::new(1, "a".to_owned(), ts(0), SessionState::Archived, None);
    let loaded = SessionTreeEntry::new(2, "b".to_owned(), ts(0), SessionState::Loaded, None);
    assert!(archived.is_dimmed());
    assert!(!loaded.is_dimmed());
}

#[test]
fn row_date_is_utc_minutes() {
    let entry = SessionTreeEntry::new(1, "t".to_owned(), ts(1_700_000_000), SessionState::Loaded, None);
    assert_eq!(entry.row_date(), "2023-11-14 22:13");
    let epoch = SessionTreeEntry::new(1, "t".to_owned(), ts(0), SessionState::Loaded, None);
    assert_eq!(epoch.row_date(), "1970-01-01 00:00");
}

#[test]
fn row_date_pads_like_the_format_macro() {
    assert_eq!(format_row_date(2024, 3, 9, 7, 5), "2024-03-09 07:05");
    assert_eq!(format_row_date(987, 12, 31, 23, 59), format!("{:04}-{:02}-{:02} {:02}:{:02}", 987, 12, 31, 23, 59));
    assert_eq!(format_row_date(-5, 1, 1, 0, 0), format!("{:04}-01-01 00:00", -5i16));
    assert_eq!(format_row_date(0, 1, 1, 0, 0), "0000-01-01 00:00");
}

#[test]
fn images_are_attached_converted_or_refused() {
    use_image_plans();
}

fn use_image_plans() {
    let native = jinn_domain::image_resolve::plan_attachment(jinn_domain::image_resolve::ImageKind::Native {
        media_type: "image/jpeg".to_owned(),
    });
    assert!(matches!(native, jinn_domain::image_resolve::AttachmentPlan::AttachAsRead { ref media_type } if media_type == "image/jpeg"));
    let conv = jinn_domain::image_resolve::plan_attachment(jinn_domain::image_resolve::ImageKind::NeedsConversion);
    assert!(matches!(conv, jinn_domain::image_resolve::AttachmentPlan::ConvertToPng));
    assert_eq!(jinn_domain::image_resolve::converted_media_type(), "image/png");
    let bad = jinn_domain::image_resolve::plan_attachment(jinn_domain::image_resolve::ImageKind::NotAnImage);
    assert!(matches!(bad, jinn_domain::image_resolve::AttachmentPlan::Reject { ref reason } if reason == "file is not a recognized image format"));
    assert_eq!(
        jinn_domain::image_resolve::format_attachment_error("ImageResolveError: boom"),
        "Could not attach image: ImageResolveError: boom"
    );
}

fn row_at(t: jiff::Timestamp) -> String {
    SessionTreeEntry::new(1, "t".to_owned(), t, SessionState::Loaded, None).row_date()
}

#[test]
fn row_date_rounds_down_and_follows_the_gregorian_calendar() {
    assert_eq!(row_at(jiff::Timestamp::from_nanosecond(-1).unwrap()), "1969-12-31 23:59");
    assert_eq!(row_at(ts(951_782_400)), "2000-02-29 00:00");
    assert_eq!(row_at(ts(4_107_542_340)), "2100-02-28 23:59");
    assert_eq!(row_at(ts(-62_167_219_200)), "0000-01-01 00:00");
    assert_eq!(row_at(ts(-62_167_219_260)), "-001-12-31 23:59");
    assert_eq!(row_at(jiff::Timestamp::MAX), "9999-12-30 22:00");
}
