use jinn_domain::entry::ChatEntryId;
use jinn_domain::pin_cursor::pin_cursor_after_unpin;

fn ids(n: u64) -> Vec<ChatEntryId> {
    (1..=n).map(ChatEntryId).collect()
}

fn without(all: &[ChatEntryId], gone: ChatEntryId) -> Vec<ChatEntryId> {
    all.iter().copied().filter(|id| *id != gone).collect()
}

#[test]
fn unpin_keeps_cursor_position_when_first_removed() {
    let before = ids(3);
    let after = without(&before, before[0]);
    assert_eq!(pin_cursor_after_unpin(Some(before[0]), &before, &after), Some(before[1]));
}

#[test]
fn unpin_keeps_cursor_position_when_middle_removed() {
    let before = ids(3);
    let after = without(&before, before[1]);
    assert_eq!(pin_cursor_after_unpin(Some(before[1]), &before, &after), Some(before[2]));
}

#[test]
fn unpin_keeps_cursor_when_a_different_entry_is_removed() {
    let before = ids(3);
    let after = without(&before, before[0]);
    assert_eq!(pin_cursor_after_unpin(Some(before[1]), &before, &after), Some(before[1]));
}

#[test]
fn unpin_clamps_cursor_to_new_last_when_last_removed() {
    let before = ids(3);
    let after = without(&before, before[2]);
    assert_eq!(pin_cursor_after_unpin(Some(before[2]), &before, &after), Some(before[1]));
}

#[test]
fn unpin_clears_cursor_when_only_pin_removed() {
    let before = ids(1);
    let after = without(&before, before[0]);
    assert_eq!(pin_cursor_after_unpin(Some(before[0]), &before, &after), None);
}

#[test]
fn no_selection_stays_unselected() {
    let before = ids(2);
    let after = without(&before, before[0]);
    assert_eq!(pin_cursor_after_unpin(None, &before, &after), None);
}
