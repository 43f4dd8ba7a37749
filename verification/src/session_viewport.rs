//! Viewport geometry of the last render: which entries are visible, where
//! the selected one sits on screen, and scrolling it into view.
use vstd::prelude::*;
use core::ops::Range;
use crate::session::{ChatSessionState, SessionUi};
use crate::session_view::{
    first_selectable_in, last_selectable_in, sat_add, sat_sub, selected_index,
    with_selected_index,
};

verus! {

/// Whether the wrapped lines of visual item `i` meet the viewport.
pub open spec fn line_visible(s: ChatSessionState, i: int) -> bool {
    &&& 0 <= i < s.ui.entry_line_ranges@.len()
    &&& sat_add(s.ui.entry_line_ranges@[i].1 as int, s.ui.blank_count as int)
        > s.ui.rendered_scroll_offset as int
    &&& sat_add(s.ui.entry_line_ranges@[i].0 as int, s.ui.blank_count as int)
        < sat_add(s.ui.rendered_scroll_offset as int, s.ui.viewport_height as int)
}

/// `i` is the first visible visual item.
pub open spec fn is_first_visible(s: ChatSessionState, i: int) -> bool {
    &&& line_visible(s, i)
    &&& forall|j: int| 0 <= j < i ==> !#[trigger] line_visible(s, j)
}

/// `i` is the last visible visual item.
pub open spec fn is_last_visible(s: ChatSessionState, i: int) -> bool {
    &&& line_visible(s, i)
    &&& forall|j: int| i < j ==> !#[trigger] line_visible(s, j)
}

/// The half-open range from the first to the last visible item, or `(0, 0)`.
pub open spec fn visible_range(s: ChatSessionState) -> (int, int) {
    if exists|i: int| line_visible(s, i) {
        (
            choose|i: int| is_first_visible(s, i),
            (choose|i: int| is_last_visible(s, i)) + 1,
        )
    } else {
        (0, 0)
    }
}

proof fn lemma_visible_range(s: ChatSessionState, f: int, l: int)
    requires
        is_first_visible(s, f),
        is_last_visible(s, l),
    ensures
        visible_range(s) == (f, l + 1),
        f <= l,
{
    let f2 = choose|i: int| is_first_visible(s, i);
    let l2 = choose|i: int| is_last_visible(s, i);
    assert(is_first_visible(s, f2));
    assert(is_last_visible(s, l2));
    if f2 < f {
        assert(!line_visible(s, f2));
    }
    if f < f2 {
        assert(!line_visible(s, f));
    }
    if l2 < l {
        assert(!line_visible(s, l));
    }
    if l < l2 {
        assert(!line_visible(s, l2));
    }
    if l < f {
        assert(!line_visible(s, l));
    }
}

/// The scroll offset that brings the selected item into view: `None` when
/// nothing changes, `Some(None)` to follow the bottom, `Some(Some(o))` for
/// offset `o`.
pub open spec fn scroll_target(s: ChatSessionState) -> Option<Option<u16>> {
    match selected_index(s) {
        None => None,
        Some(i) => if !(0 <= i < s.ui.entry_line_ranges@.len()) || s.ui.viewport_height == 0 {
            None
        } else {
            let vh = s.ui.viewport_height as int;
            let abs_start = sat_add(s.ui.entry_line_ranges@[i].0 as int, s.ui.blank_count as int);
            let abs_end = sat_add(s.ui.entry_line_ranges@[i].1 as int, s.ui.blank_count as int);
            let cur = s.ui.rendered_scroll_offset as int;
            let bottom = sat_add(cur, vh);
            let wanted: Option<int> = if sat_sub(abs_end, abs_start) <= vh {
                if abs_start < cur {
                    Some(abs_start)
                } else if abs_end > bottom {
                    Some(sat_sub(abs_end, vh))
                } else {
                    None
                }
            } else {
                if abs_start >= bottom {
                    Some(abs_start)
                } else if abs_end <= cur {
                    Some(sat_sub(abs_end, vh))
                } else {
                    None
                }
            };
            match wanted {
                None => None,
                Some(o) => {
                    let max = s.ui.last_max_offset as int;
                    let clamped = if o < max { o } else { max };
                    if clamped >= max {
                        Some(None)
                    } else {
                        Some(Some(clamped as u16))
                    }
                },
            }
        },
    }
}

/// Whether the wrapped lines of visual item `i` meet the viewport when it
/// starts at line `o`.
pub open spec fn item_meets_view(s: ChatSessionState, i: int, o: int) -> bool {
    &&& sat_add(s.ui.entry_line_ranges@[i].1 as int, s.ui.blank_count as int) > o
    &&& sat_add(s.ui.entry_line_ranges@[i].0 as int, s.ui.blank_count as int) < sat_add(o, s.ui.viewport_height as int)
}

/// Scrolling to the selection shows it. When the selected item has lines
/// of its own and the viewport has a height, either nothing changes and the
/// item already meets the viewport, or the scroll offset alone changes: to
/// an offset at which the item meets the viewport, or to following the
/// bottom, which happens only when every offset showing the item from its
/// chosen edge lies at or past the largest offset.
pub proof fn lemma_scroll_to_selected_shows_it(s: ChatSessionState, t: ChatSessionState, i: int)
    requires
        match scroll_target(s) {
            None => t == s,
            Some(o) => t == (ChatSessionState { ui: SessionUi { scroll_offset: o, ..s.ui }, ..s }),
        },
        selected_index(s) == Some(i),
        0 <= i < s.ui.entry_line_ranges@.len(),
        s.ui.viewport_height > 0,
        sat_add(s.ui.entry_line_ranges@[i].0 as int, s.ui.blank_count as int) < sat_add(
            s.ui.entry_line_ranges@[i].1 as int,
            s.ui.blank_count as int,
        ),
    ensures
        ({
        ||| (t == s && item_meets_view(s, i, s.ui.rendered_scroll_offset as int))
        ||| (exists|o: u16|
            #![trigger item_meets_view(s, i, o as int)]
            t == (ChatSessionState { ui: SessionUi { scroll_offset: Some(o), ..s.ui }, ..s }) && o
                < s.ui.last_max_offset && item_meets_view(s, i, o as int))
        ||| (t == (ChatSessionState { ui: SessionUi { scroll_offset: None, ..s.ui }, ..s }) && exists|o: int|
            #![trigger item_meets_view(s, i, o)]
            o >= s.ui.last_max_offset && item_meets_view(s, i, o))
        }),
{
    let vh = s.ui.viewport_height as int;
    let a = sat_add(s.ui.entry_line_ranges@[i].0 as int, s.ui.blank_count as int);
    let b = sat_add(s.ui.entry_line_ranges@[i].1 as int, s.ui.blank_count as int);
    let cur = s.ui.rendered_scroll_offset as int;
    let wanted: int = if sat_sub(b, a) <= vh {
        if a < cur {
            a
        } else if b > sat_add(cur, vh) {
            sat_sub(b, vh)
        } else {
            -1
        }
    } else {
        if a >= sat_add(cur, vh) {
            a
        } else if b <= cur {
            sat_sub(b, vh)
        } else {
            -1
        }
    };
    if wanted >= 0 {
        assert(item_meets_view(s, i, wanted));
        let max = s.ui.last_max_offset as int;
        if wanted < max {
            let o = wanted as u16;
            assert(item_meets_view(s, i, o as int));
        }
    }
}

impl ChatSessionState {
    /// Scrolls so that the selected item is in view, using the line ranges,
    /// viewport height and offsets of the last render. An item that fits is
    /// brought just inside the nearer edge; a taller one is aligned at its
    /// top, or at its bottom when it lies above. Reaching the largest offset
    /// follows the bottom again.
    pub fn scroll_to_selected(&mut self)
        ensures
            match scroll_target(*old(self)) {
                None => *final(self) == *old(self),
                Some(o) => *final(self) == (ChatSessionState {
                    ui: SessionUi { scroll_offset: o, ..old(self).ui },
                    ..*old(self)
                }),
            },
    {
        let selected = match self.selected_entry_index() {
            Some(i) => i,
            None => return,
        };
        if selected >= self.ui.entry_line_ranges.len() {
            return;
        }
        let (start, end) = self.ui.entry_line_ranges[selected];
        let viewport_height = self.ui.viewport_height;
        let blank_count = self.ui.blank_count;
        let max_offset = self.ui.last_max_offset;
        if viewport_height == 0 {
            return;
        }
        let abs_start = start.saturating_add(blank_count);
        let abs_end = end.saturating_add(blank_count);
        let entry_height = abs_end.saturating_sub(abs_start);
        let current = self.ui.rendered_scroll_offset;
        let new_offset = if entry_height <= viewport_height {
            if abs_start < current {
                abs_start
            } else if abs_end > current.saturating_add(viewport_height) {
                abs_end.saturating_sub(viewport_height)
            } else {
                return;
            }
        } else {
            if abs_start >= current.saturating_add(viewport_height) {
                abs_start
            } else if abs_end <= current {
                abs_end.saturating_sub(viewport_height)
            } else {
                return;
            }
        };
        let clamped = if new_offset < max_offset { new_offset } else { max_offset };
        if clamped >= max_offset {
            self.ui.scroll_offset = None;
        } else {
            self.ui.scroll_offset = Some(clamped);
        }
    }

    /// The screen row of the top of the selected item: the chat-log area's
    /// row plus the item's offset below the top of the viewport (zero when
    /// it starts above it). `None` when nothing is selected or the last
    /// render recorded no line range for it.
    pub fn selected_entry_screen_y(&self, chat_log_area_y: u16) -> (r: Option<u16>)
        ensures
            match selected_index(*self) {
                Some(i) if 0 <= i < self.ui.entry_line_ranges@.len() => r == Some(
                    sat_add(
                        chat_log_area_y as int,
                        sat_sub(
                            sat_add(
                                self.ui.entry_line_ranges@[i].0 as int,
                                self.ui.blank_count as int,
                            ),
                            self.ui.rendered_scroll_offset as int,
                        ),
                    ) as u16,
                ),
                _ => r is None,
            },
    {
        let vi = match self.selected_entry_index() {
            Some(i) => i,
            None => return None,
        };
        if vi >= self.ui.entry_line_ranges.len() {
            return None;
        }
        let (start, _end) = self.ui.entry_line_ranges[vi];
        let abs_start = start.saturating_add(self.ui.blank_count);
        let viewport_offset = abs_start.saturating_sub(self.ui.rendered_scroll_offset);
        Some(chat_log_area_y.saturating_add(viewport_offset))
    }

    /// The visual items with at least one line in the viewport, as the range
    /// from the first to the last of them; `0..0` when none is visible.
    pub fn visible_entry_range(&self) -> (r: Range<usize>)
        ensures
            (r.start as int, r.end as int) == visible_range(*self),
            r.start < r.end ==> r.end <= self.ui.entry_line_ranges@.len(),
    {
        let n = self.ui.entry_line_ranges.len();
        let viewport_top = self.ui.rendered_scroll_offset;
        let viewport_bottom = viewport_top.saturating_add(self.ui.viewport_height);
        let blank = self.ui.blank_count;
        let mut first: Option<usize> = None;
        let mut last: usize = 0;
        let mut i: usize = 0;
        while i < n
            invariant
                n == self.ui.entry_line_ranges@.len(),
                i <= n,
                viewport_top == self.ui.rendered_scroll_offset,
                viewport_bottom as int == sat_add(
                    self.ui.rendered_scroll_offset as int,
                    self.ui.viewport_height as int,
                ),
                blank == self.ui.blank_count,
                first is None ==> forall|j: int| 0 <= j < i ==> !#[trigger] line_visible(*self, j),
                first is Some ==> {
                    &&& is_first_visible(*self, first->0 as int)
                    &&& first->0 <= last < i
                    &&& line_visible(*self, last as int)
                    &&& forall|j: int| last < j < i ==> !#[trigger] line_visible(*self, j)
                },
            decreases n - i,
        {
            let (start, end) = self.ui.entry_line_ranges[i];
            let abs_start = start.saturating_add(blank);
            let abs_end = end.saturating_add(blank);
            if abs_end > viewport_top && abs_start < viewport_bottom {
                if first.is_none() {
                    first = Some(i);
                }
                last = i;
            }
            i = i + 1;
        }
        match first {
            Some(f) => {
                proof {
                    assert forall|j: int| last < j implies !#[trigger] line_visible(*self, j) by {
                        if j < n {
                            assert(!line_visible(*self, j));
                        }
                    }
                    lemma_visible_range(*self, f as int, last as int);
                }
                f..last + 1
            },
            None => {
                proof {
                    assert forall|j: int| !#[trigger] line_visible(*self, j) by {
                        if 0 <= j < n {
                            assert(!line_visible(*self, j));
                        }
                    }
                }
                0..0
            },
        }
    }

    /// Moves the cursor to the first selectable visible item; nothing
    /// changes when no visible item is selectable. Before the first render
    /// the first visible index is taken as a history index.
    pub fn move_cursor_to_first_visible(&mut self)
        ensures
            ({
                let (a, b) = visible_range(*old(self));
                &&& a >= b ==> *final(self) == *old(self)
                &&& (a < b && old(self).ui.visual_items@.len() == 0)
                    ==> *final(self) == with_selected_index(*old(self), a)
                &&& (a < b && old(self).ui.visual_items@.len() > 0) ==> {
                    &&& forall|j: int| #[trigger] first_selectable_in(*old(self), a, b - 1, j)
                        ==> *final(self) == with_selected_index(*old(self), j)
                    &&& (forall|j: int| !#[trigger] first_selectable_in(*old(self), a, b - 1, j))
                        ==> *final(self) == *old(self)
                }
            }),
    {
        let range = self.visible_entry_range();
        if range.start >= range.end {
            return;
        }
        if self.ui.visual_items.len() == 0 {
            self.set_selected_entry_index(range.start);
            return;
        }
        let a = range.start;
        let top = range.end - 1;
        let mut idx = a;
        while idx < top && !self.is_selectable(idx)
            invariant
                *self == *old(self),
                (a as int, top + 1) == visible_range(*old(self)),
                a <= idx <= top,
                forall|k: int| a <= k < idx ==> !#[trigger] crate::session_view::selectable(*self, k),
            decreases top - idx,
        {
            idx = idx + 1;
        }
        if self.is_selectable(idx) {
            proof {
                assert(first_selectable_in(*old(self), a as int, top as int, idx as int));
                assert forall|j: int| #[trigger] first_selectable_in(*old(self), a as int, top as int, j)
                    implies j == idx by {
                    if j < idx {
                        assert(!crate::session_view::selectable(*self, j));
                    }
                    if idx < j {
                        assert(!crate::session_view::selectable(*self, idx as int));
                    }
                }
            }
            self.set_selected_entry_index(idx);
        } else {
            proof {
                assert forall|j: int| !first_selectable_in(*old(self), a as int, top as int, j) by {
                    if a <= j < top {
                        assert(!crate::session_view::selectable(*self, j));
                    }
                }
            }
        }
    }

    /// Moves the cursor to the last selectable visible item. Before the
    /// first render the last visible index is taken as a history index.
    pub fn move_cursor_to_last_visible(&mut self)
        ensures
            ({
                let (a, b) = visible_range(*old(self));
                &&& a >= b ==> *final(self) == *old(self)
                &&& (a < b && old(self).ui.visual_items@.len() == 0)
                    ==> *final(self) == with_selected_index(*old(self), b - 1)
                &&& (a < b && old(self).ui.visual_items@.len() > 0) ==> {
                    &&& forall|j: int| #[trigger] last_selectable_in(*old(self), a, b - 1, j)
                        ==> *final(self) == with_selected_index(*old(self), j)
                    &&& (forall|j: int| !#[trigger] last_selectable_in(*old(self), a, b - 1, j))
                        ==> *final(self) == *old(self)
                }
            }),
    {
        let range = self.visible_entry_range();
        if range.start >= range.end {
            return;
        }
        if self.ui.visual_items.len() == 0 {
            self.set_selected_entry_index(range.end - 1);
            return;
        }
        let a = range.start;
        let top = range.end - 1;
        let mut idx = top;
        while idx > a && !self.is_selectable(idx)
            invariant
                *self == *old(self),
                (a as int, top + 1) == visible_range(*old(self)),
                a <= idx <= top,
                forall|k: int| idx < k <= top ==> !#[trigger] crate::session_view::selectable(*self, k),
            decreases idx,
        {
            idx = idx - 1;
        }
        if self.is_selectable(idx) {
            proof {
                assert(last_selectable_in(*old(self), a as int, top as int, idx as int));
                assert forall|j: int| #[trigger] last_selectable_in(*old(self), a as int, top as int, j)
                    implies j == idx by {
                    if j < idx {
                        assert(!crate::session_view::selectable(*self, idx as int));
                    }
                    if idx < j {
                        assert(!crate::session_view::selectable(*self, j));
                    }
                }
            }
            self.set_selected_entry_index(idx);
        } else {
            proof {
                assert forall|j: int| !last_selectable_in(*old(self), a as int, top as int, j) by {
                    if a < j <= top {
                        assert(!crate::session_view::selectable(*self, j));
                    }
                }
            }
        }
    }
}

} // verus!
