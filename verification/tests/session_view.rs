use jinn_domain::entry::{ChatEntry, ChatEntryId, ContextOverride, PinPosition};
use jinn_domain::session::{ChatSessionState, VisualItem};
use jinn_domain::session_view::ignore_sweep_outcome;

fn session_with(texts: &[&str]) -> ChatSessionState {
    let mut s = ChatSessionState::new();
    for (i, t) in texts.iter().enumerate() {
        s.push_entry(ChatEntry::user(ChatEntryId(i as u64 + 1), t));
    }
    s
}

#[test]
fn push_entry_follows_the_cursor_at_the_end() {
    let mut s = ChatSessionState::new();
    assert_eq!(s.push_entry(ChatEntry::user(ChatEntryId(1), "a")), 0);
    assert_eq!(s.selected_cursor_id(), Some(ChatEntryId(1)));
    s.push_entry(ChatEntry::user(ChatEntryId(2), "b"));
    assert_eq!(s.selected_cursor_id(), Some(ChatEntryId(2)));
    s.set_selected_cursor_id(ChatEntryId(1));
    s.scroll_up(3);
    s.push_entry(ChatEntry::user(ChatEntryId(3), "c"));
    assert_eq!(s.selected_cursor_id(), Some(ChatEntryId(1)));
    assert!(!s.is_at_bottom());
}

fn rendered(s: &mut ChatSessionState) {
    let items = (0..s.history().len()).map(VisualItem::Entry).collect();
    s.set_visual_items(items);
}

#[test]
fn select_next_and_prev_do_nothing_before_first_render() {
    let mut s = session_with(&["a", "b", "c"]);
    s.clear_selection();
    s.select_next_entry();
    assert_eq!(s.selected_cursor_id(), None);
    s.select_prev_entry();
    assert_eq!(s.selected_cursor_id(), None);
    s.set_selected_cursor_id(ChatEntryId(1));
    s.select_next_entry();
    assert_eq!(s.selected_cursor_id(), Some(ChatEntryId(1)));
}

#[test]
fn select_next_and_prev_walk_the_rendered_items() {
    let mut s = session_with(&["a", "b", "c"]);
    rendered(&mut s);
    s.clear_selection();
    s.select_next_entry();
    assert_eq!(s.selected_entry_index(), Some(0));
    s.select_next_entry();
    assert_eq!(s.selected_entry_index(), Some(1));
    s.select_next_entry();
    s.select_next_entry();
    assert_eq!(s.selected_entry_index(), Some(2));
    s.select_prev_entry();
    assert_eq!(s.selected_entry_index(), Some(1));
    s.select_prev_entry();
    s.select_prev_entry();
    assert_eq!(s.selected_entry_index(), Some(0));
}

#[test]
fn selection_skips_empty_assistant_entries() {
    let mut s = ChatSessionState::new();
    s.push_entry(ChatEntry::user(ChatEntryId(1), "q"));
    s.push_entry(ChatEntry::assistant(ChatEntryId(2), ""));
    s.push_entry(ChatEntry::assistant(ChatEntryId(3), "answer"));
    rendered(&mut s);
    s.set_selected_cursor_id(ChatEntryId(1));
    s.select_next_entry();
    assert_eq!(s.selected_entry_id(), Some(&ChatEntryId(3)));
    s.select_prev_entry();
    assert_eq!(s.selected_entry_id(), Some(&ChatEntryId(1)));
}

#[test]
fn selection_walks_visual_items_after_render() {
    let mut s = session_with(&["a", "b", "c", "d"]);
    s.set_visual_items(vec![
        VisualItem::Entry(0),
        VisualItem::CollapsedIgnoredBlock { start: 1, len: 2 },
        VisualItem::Entry(3),
    ]);
    s.set_selected_cursor_id(ChatEntryId(1));
    assert_eq!(s.selected_entry_index(), Some(0));
    s.select_next_entry();
    assert_eq!(s.selected_entry_index(), Some(1));
    assert!(s.is_selected_collapsed_block());
    assert!(s.selected_entry().is_none());
    assert_eq!(s.selected_history_index(), None);
    assert_eq!(s.selected_cursor_id(), Some(ChatEntryId(2)));
    s.select_next_entry();
    assert_eq!(s.selected_history_index(), Some(3));
    assert_eq!(s.selected_visual_item(), Some(VisualItem::Entry(3)));
}

#[test]
fn set_selected_entry_index_ignores_positions_without_entry() {
    let mut s = session_with(&["a", "b"]);
    s.set_selected_entry_index(0);
    assert_eq!(s.selected_cursor_id(), Some(ChatEntryId(1)));
    s.set_selected_entry_index(7);
    assert_eq!(s.selected_cursor_id(), Some(ChatEntryId(1)));
}

#[test]
fn scrolling_clamps_and_returns_to_bottom() {
    let mut s = session_with(&["a"]);
    s.set_last_max_offset(10);
    s.scroll_up(4);
    assert_eq!(s.scroll_offset(), Some(6));
    s.scroll_up(100);
    assert_eq!(s.scroll_offset(), Some(0));
    s.scroll_down(3);
    assert_eq!(s.scroll_offset(), Some(3));
    s.scroll_down(7);
    assert_eq!(s.scroll_offset(), None);
    assert!(s.is_at_bottom());
    s.scroll_to_top();
    assert_eq!(s.scroll_offset(), Some(0));
    s.scroll_to_bottom();
    assert!(s.is_at_bottom());
}

#[test]
fn visible_range_covers_items_meeting_the_viewport() {
    let mut s = session_with(&["a", "b", "c", "d"]);
    s.set_entry_line_ranges(vec![(0, 3), (3, 6), (6, 9), (9, 12)]);
    s.set_viewport_height(4);
    s.set_blank_count(0);
    s.set_rendered_scroll_offset(4);
    assert_eq!(s.visible_entry_range(), 1..3);
    s.set_rendered_scroll_offset(40);
    assert_eq!(s.visible_entry_range(), 0..0);
}

#[test]
fn move_cursor_to_first_and_last_visible() {
    let mut s = session_with(&["a", "b", "c", "d"]);
    s.set_entry_line_ranges(vec![(0, 3), (3, 6), (6, 9), (9, 12)]);
    s.set_viewport_height(4);
    s.set_rendered_scroll_offset(4);
    s.move_cursor_to_first_visible();
    assert_eq!(s.selected_cursor_id(), Some(ChatEntryId(2)));
    s.move_cursor_to_last_visible();
    assert_eq!(s.selected_cursor_id(), Some(ChatEntryId(3)));
}

#[test]
fn scroll_to_selected_brings_entry_into_view() {
    let mut s = session_with(&["a", "b", "c", "d"]);
    s.set_entry_line_ranges(vec![(0, 3), (3, 6), (6, 9), (9, 12)]);
    s.set_viewport_height(4);
    s.set_last_max_offset(8);
    s.set_rendered_scroll_offset(8);
    s.set_selected_cursor_id(ChatEntryId(1));
    s.scroll_to_selected();
    assert_eq!(s.scroll_offset(), Some(0));
    s.set_rendered_scroll_offset(0);
    s.set_selected_cursor_id(ChatEntryId(3));
    s.scroll_to_selected();
    assert_eq!(s.scroll_offset(), Some(5));
    s.set_rendered_scroll_offset(5);
    s.set_selected_cursor_id(ChatEntryId(4));
    s.scroll_to_selected();
    assert_eq!(s.scroll_offset(), None);
}

#[test]
fn selected_entry_screen_y_offsets_from_viewport_top() {
    let mut s = session_with(&["a", "b"]);
    s.set_entry_line_ranges(vec![(0, 3), (3, 6)]);
    s.set_blank_count(1);
    s.set_rendered_scroll_offset(2);
    s.set_selected_cursor_id(ChatEntryId(2));
    assert_eq!(s.selected_entry_screen_y(10), Some(12));
    s.set_selected_cursor_id(ChatEntryId(1));
    assert_eq!(s.selected_entry_screen_y(10), Some(10));
    s.clear_selection();
    assert_eq!(s.selected_entry_screen_y(10), None);
}

#[test]
fn saved_history_position_round_trips_once() {
    let mut s = session_with(&["a", "b"]);
    s.set_last_max_offset(10);
    s.scroll_up(2);
    s.save_history_position();
    s.scroll_to_top();
    s.set_selected_cursor_id(ChatEntryId(1));
    s.save_history_position();
    assert!(s.has_saved_history_position());
    s.restore_history_position();
    assert_eq!(s.scroll_offset(), Some(8));
    assert_eq!(s.selected_cursor_id(), Some(ChatEntryId(2)));
    assert!(!s.has_saved_history_position());
}

#[test]
fn toggle_entry_ignored_flips_between_default_and_forced() {
    let mut s = session_with(&["a"]);
    assert_eq!(s.toggle_entry_ignored(), Some(ChatEntryId(1)));
    assert_eq!(s.history()[0].context_override, ContextOverride::ForcedExclude);
    assert_eq!(s.toggle_entry_ignored(), Some(ChatEntryId(1)));
    assert_eq!(s.history()[0].context_override, ContextOverride::Default);
    assert_eq!(s.set_entry_context_override(ContextOverride::Default), None);
    s.clear_selection();
    assert_eq!(s.toggle_entry_ignored(), None);
}

#[test]
fn ignored_block_visibility_toggles_block_representative() {
    let mut s = session_with(&["a", "b", "c", "d"]);
    s.mark_entries_ignored(&[1, 2, 9]);
    assert!(!s.history()[1].is_in_context());
    assert!(s.history()[3].is_in_context());
    s.toggle_ignored_block_visibility(&ChatEntryId(3));
    assert!(s.ui.shown_ignored_blocks.contains(&ChatEntryId(2)));
    s.toggle_ignored_block_visibility(&ChatEntryId(2));
    assert!(!s.ui.shown_ignored_blocks.contains(&ChatEntryId(2)));
    s.toggle_ignored_block_visibility(&ChatEntryId(4));
    assert!(!s.ui.shown_ignored_blocks.contains(&ChatEntryId(4)));
}

#[test]
fn pinning_inside_a_shown_block_shows_the_rest() {
    let mut s = session_with(&["a", "b", "c", "d"]);
    s.mark_entries_ignored(&[1, 2, 3]);
    s.toggle_ignored_block_visibility(&ChatEntryId(2));
    s.pin_entry(&ChatEntryId(3), PinPosition::Top);
    assert!(s.ui.shown_ignored_blocks.contains(&ChatEntryId(4)));
    assert_eq!(s.pinned_entries().len(), 1);
    assert_eq!(s.pinned_entries()[0].id, ChatEntryId(3));
    s.unpin_entry(&ChatEntryId(3));
    assert!(s.pinned_entries().is_empty());
}

#[test]
fn unignoring_inside_a_shown_block_shows_the_rest() {
    let mut s = session_with(&["a", "b", "c", "d"]);
    s.mark_entries_ignored(&[1, 2, 3]);
    s.toggle_ignored_block_visibility(&ChatEntryId(2));
    s.set_selected_cursor_id(ChatEntryId(3));
    s.set_entry_context_override(ContextOverride::ForcedInclude);
    s.propagate_shown_on_unignore(&ChatEntryId(3));
    assert!(s.ui.shown_ignored_blocks.contains(&ChatEntryId(4)));
}

#[test]
fn restore_history_selects_last_and_follows_bottom() {
    let mut s = ChatSessionState::new();
    s.scroll_to_top();
    s.restore_history(vec![ChatEntry::user(ChatEntryId(5), "x"), ChatEntry::user(ChatEntryId(6), "y")]);
    assert_eq!(s.selected_cursor_id(), Some(ChatEntryId(6)));
    assert!(s.is_at_bottom());
    s.restore_history(vec![]);
    assert_eq!(s.selected_cursor_id(), None);
}

#[test]
fn insert_entry_at_clamps_to_the_end() {
    let mut s = session_with(&["a"]);
    assert_eq!(s.insert_entry_at(9, ChatEntry::user(ChatEntryId(2), "b")), 1);
    assert_eq!(s.insert_entry_at(0, ChatEntry::user(ChatEntryId(3), "c")), 0);
    let ids: Vec<u64> = s.history().iter().map(|e| e.id.0).collect();
    assert_eq!(ids, vec![3, 1, 2]);
}

#[test]
fn fresh_ids_continue_after_pushed_ones() {
    let mut s = session_with(&["a", "b"]);
    let id = s.fresh_entry_id();
    assert_eq!(id, ChatEntryId(3));
}

#[test]
fn ignore_sweep_set_take_clear() {
    let mut s = ChatSessionState::new();
    assert_eq!(s.take_ignore_sweep(), None);
    s.set_ignore_sweep(ContextOverride::ForcedExclude);
    assert_eq!(s.take_ignore_sweep(), Some(ContextOverride::ForcedExclude));
    assert_eq!(s.take_ignore_sweep(), None);
    s.set_ignore_sweep(ContextOverride::Default);
    s.clear_ignore_sweep();
    assert_eq!(s.take_ignore_sweep(), None);
    assert_eq!(ignore_sweep_outcome(99, ContextOverride::ForcedInclude), Some(ContextOverride::ForcedInclude));
    assert_eq!(ignore_sweep_outcome(100, ContextOverride::ForcedInclude), None);
}

#[test]
fn expanding_entries_toggles() {
    let mut s = ChatSessionState::new();
    s.toggle_expand_entry(ChatEntryId(4));
    assert!(s.is_entry_expanded(&ChatEntryId(4)));
    s.toggle_expand_entry(ChatEntryId(4));
    assert!(!s.is_entry_expanded(&ChatEntryId(4)));
}

#[test]
fn a_second_restore_changes_nothing() {
    let mut s = session_with(&["a", "b", "c"]);
    s.set_last_max_offset(10);
    s.scroll_up(3);
    s.save_history_position();
    s.scroll_to_top();
    s.set_selected_cursor_id(ChatEntryId(1));
    s.restore_history_position();
    let offset = s.scroll_offset();
    let cursor = s.selected_cursor_id();
    assert_eq!(offset, Some(7));
    assert_eq!(cursor, Some(ChatEntryId(3)));
    s.restore_history_position();
    assert_eq!(s.scroll_offset(), offset);
    assert_eq!(s.selected_cursor_id(), cursor);
    assert!(!s.has_saved_history_position());
}

#[test]
fn first_visible_stays_inside_the_viewport() {
    let mut s = ChatSessionState::new();
    s.push_entry(ChatEntry::user(ChatEntryId(1), "a"));
    s.push_entry(ChatEntry::assistant(ChatEntryId(2), ""));
    s.push_entry(ChatEntry::assistant(ChatEntryId(3), ""));
    s.push_entry(ChatEntry::user(ChatEntryId(4), "d"));
    s.set_visual_items((0..4).map(VisualItem::Entry).collect());
    s.set_entry_line_ranges(vec![(0, 3), (3, 6), (6, 9), (9, 12)]);
    s.set_viewport_height(4);
    s.set_blank_count(0);
    s.set_rendered_scroll_offset(4);
    assert_eq!(s.visible_entry_range(), 1..3);
    s.set_selected_cursor_id(ChatEntryId(1));
    s.move_cursor_to_first_visible();
    assert_eq!(s.selected_cursor_id(), Some(ChatEntryId(1)));
}
