//! Scrolling, viewport geometry and cursor selection of a chat session.
use vstd::prelude::*;
use core::ops::Range;
use crate::clock::{elapsed_millis, instant_now};
use crate::entry::{empty_assistant, ChatEntry, ChatEntryId, ContextOverride};
use crate::session::{find_pos, is_first_pos, lemma_find_pos, ChatSessionState, SessionUi, VisualItem};

verus! {

/// `a + b` saturating at the largest `u16`.
pub open spec fn sat_add(a: int, b: int) -> int {
    if a + b > 0xffff { 0xffff } else { a + b }
}

/// `a - b` saturating at zero.
pub open spec fn sat_sub(a: int, b: int) -> int {
    if a - b < 0 { 0 } else { a - b }
}

/// Whether a visual item stands for history index `hi`.
pub open spec fn item_covers(item: VisualItem, hi: int) -> bool {
    match item {
        VisualItem::Entry(h) => h == hi,
        VisualItem::CollapsedIgnoredBlock { start, len } => start <= hi < start + len,
    }
}

/// `i` is the first visual item standing for history index `hi`.
pub open spec fn is_first_cover(items: Seq<VisualItem>, hi: int, i: int) -> bool {
    &&& 0 <= i < items.len()
    &&& item_covers(items[i], hi)
    &&& forall|j: int| 0 <= j < i ==> !item_covers(#[trigger] items[j], hi)
}

/// The first visual item standing for history index `hi`, if any.
pub open spec fn first_cover(items: Seq<VisualItem>, hi: int) -> Option<int> {
    if exists|i: int| is_first_cover(items, hi, i) {
        Some(choose|i: int| is_first_cover(items, hi, i))
    } else {
        None
    }
}

proof fn lemma_first_cover(items: Seq<VisualItem>, hi: int, i: int)
    requires
        is_first_cover(items, hi, i),
    ensures
        first_cover(items, hi) == Some(i),
{
    let j = choose|j: int| is_first_cover(items, hi, j);
    if j < i {
        assert(!item_covers(items[j], hi));
    }
    if i < j {
        assert(!item_covers(items[i], hi));
    }
}

/// The index the cursor resolves to: a history index before the first
/// render (no visual items), else a visual-item index.
pub open spec fn selected_index(s: ChatSessionState) -> Option<int> {
    match s.ui.selected_cursor_id {
        None => None,
        Some(id) => if s.ui.visual_items@.len() == 0 {
            find_pos(s.core.history@, id)
        } else {
            match find_pos(s.core.history@, id) {
                None => None,
                Some(hi) => first_cover(s.ui.visual_items@, hi),
            }
        },
    }
}

/// The entry id a visual item stands for: the entry itself, or the first
/// entry of a collapsed block.
pub open spec fn item_entry_id(item: VisualItem, h: Seq<ChatEntry>) -> Option<ChatEntryId> {
    let hi = match item {
        VisualItem::Entry(x) => x as int,
        VisualItem::CollapsedIgnoredBlock { start, .. } => start as int,
    };
    if 0 <= hi < h.len() {
        Some(h[hi].id)
    } else {
        None
    }
}

/// The id that selecting index `index` puts under the cursor, if any.
pub open spec fn id_at_index(s: ChatSessionState, index: int) -> Option<ChatEntryId> {
    if s.ui.visual_items@.len() == 0 {
        if 0 <= index < s.core.history@.len() {
            Some(s.core.history@[index].id)
        } else {
            None
        }
    } else if 0 <= index < s.ui.visual_items@.len() {
        item_entry_id(s.ui.visual_items@[index], s.core.history@)
    } else {
        None
    }
}

/// The session after selecting index `index`.
pub open spec fn with_selected_index(s: ChatSessionState, index: int) -> ChatSessionState {
    match id_at_index(s, index) {
        Some(id) => ChatSessionState {
            ui: SessionUi { selected_cursor_id: Some(id), ..s.ui },
            ..s
        },
        None => s,
    }
}

/// Whether the cursor may rest on visual item `idx`: a collapsed block, or
/// an entry that is not an empty assistant entry.
pub open spec fn vi_selectable(items: Seq<VisualItem>, h: Seq<ChatEntry>, idx: int) -> bool {
    0 <= idx < items.len() && match items[idx] {
        VisualItem::CollapsedIgnoredBlock { .. } => true,
        VisualItem::Entry(x) => 0 <= x < h.len() && !empty_assistant(h[x as int]),
    }
}

/// Whether the cursor may rest on history entry `idx` (before the first render).
pub open spec fn hist_selectable(h: Seq<ChatEntry>, idx: int) -> bool {
    0 <= idx < h.len() && !empty_assistant(h[idx])
}

/// The selectable test in the current mode: visual items when there are
/// some, history entries before the first render.
pub open spec fn selectable(s: ChatSessionState, idx: int) -> bool {
    if s.ui.visual_items@.len() == 0 {
        hist_selectable(s.core.history@, idx)
    } else {
        vi_selectable(s.ui.visual_items@, s.core.history@, idx)
    }
}

/// Number of positions in the current mode.
pub open spec fn position_count(s: ChatSessionState) -> int {
    if s.ui.visual_items@.len() == 0 {
        s.core.history@.len() as int
    } else {
        s.ui.visual_items@.len() as int
    }
}

/// `j` is the first selectable position in `[lo, hi]`.
pub open spec fn first_selectable_in(s: ChatSessionState, lo: int, hi: int, j: int) -> bool {
    &&& lo <= j <= hi
    &&& selectable(s, j)
    &&& forall|k: int| lo <= k < j ==> !#[trigger] selectable(s, k)
}

/// `j` is the last selectable position in `[lo, hi]`.
pub open spec fn last_selectable_in(s: ChatSessionState, lo: int, hi: int, j: int) -> bool {
    &&& lo <= j <= hi
    &&& selectable(s, j)
    &&& forall|k: int| j < k <= hi ==> !#[trigger] selectable(s, k)
}

/// Where a forward cursor move starts: after the selected position, clamped
/// to the last one, or at the first position when nothing is selected.
pub open spec fn next_start(s: ChatSessionState) -> int {
    let max = position_count(s) - 1;
    match selected_index(s) {
        Some(i) => if i + 1 < max { i + 1 } else { max },
        None => 0,
    }
}

/// Where a backward cursor move starts: before the selected position,
/// clamped to the first one, or at the last position when nothing is selected.
pub open spec fn prev_start(s: ChatSessionState) -> int {
    match selected_index(s) {
        Some(i) => if i > 0 { i - 1 } else { 0 },
        None => position_count(s) - 1,
    }
}

impl ChatSessionState {
    /// Scrolls toward older messages by `amount` lines. When following the
    /// bottom, the scroll starts from the largest offset of the last render.
    pub fn scroll_up(&mut self, amount: u16)
        ensures
            final(self).ui == (SessionUi {
                scroll_offset: Some(
                    sat_sub(
                        match old(self).ui.scroll_offset {
                            Some(o) => o as int,
                            None => old(self).ui.last_max_offset as int,
                        },
                        amount as int,
                    ) as u16,
                ),
                ..old(self).ui
            }),
            final(self).core == old(self).core,
    {
        let current = match self.ui.scroll_offset {
            Some(o) => o,
            None => self.ui.last_max_offset,
        };
        self.ui.scroll_offset = Some(current.saturating_sub(amount));
    }

    /// Scrolls toward newer messages by `amount` lines; reaching the largest
    /// offset of the last render follows the bottom again.
    pub fn scroll_down(&mut self, amount: u16)
        ensures
            ({
                let cur = match old(self).ui.scroll_offset {
                    Some(o) => o as int,
                    None => old(self).ui.last_max_offset as int,
                };
                let next = sat_add(cur, amount as int);
                final(self).ui == (SessionUi {
                    scroll_offset: if next >= old(self).ui.last_max_offset {
                        None
                    } else {
                        Some(next as u16)
                    },
                    ..old(self).ui
                })
            }),
            final(self).core == old(self).core,
    {
        let current = match self.ui.scroll_offset {
            Some(o) => o,
            None => self.ui.last_max_offset,
        };
        let next = current.saturating_add(amount);
        if next >= self.ui.last_max_offset {
            self.ui.scroll_offset = None;
        } else {
            self.ui.scroll_offset = Some(next);
        }
    }

    /// The index the cursor resolves to: a history index before the first
    /// render, else the first visual item standing for the cursor's entry.
    pub fn selected_entry_index(&self) -> (r: Option<usize>)
        ensures
            match r {
                Some(i) => selected_index(*self) == Some(i as int),
                None => selected_index(*self) is None,
            },
    {
        let cursor = match self.ui.selected_cursor_id {
            Some(c) => c,
            None => return None,
        };
        let hi = match self.find_entry_index_by_id(&cursor) {
            Some(hi) => hi,
            None => return None,
        };
        if self.ui.visual_items.len() == 0 {
            return Some(hi);
        }
        let n = self.ui.visual_items.len();
        let mut i: usize = 0;
        while i < n
            invariant
                n == self.ui.visual_items@.len(),
                n > 0,
                0 <= i <= n,
                self.ui.selected_cursor_id == Some(cursor),
                find_pos(self.core.history@, cursor) == Some(hi as int),
                forall|j: int| 0 <= j < i ==> !item_covers(#[trigger] self.ui.visual_items@[j], hi as int),
            decreases n - i,
        {
            let covers = match self.ui.visual_items[i] {
                VisualItem::Entry(h) => h == hi,
                VisualItem::CollapsedIgnoredBlock { start, len } => start <= hi && (hi - start) < len,
            };
            if covers {
                proof {
                    lemma_first_cover(self.ui.visual_items@, hi as int, i as int);
                }
                return Some(i);
            }
            i = i + 1;
        }
        None
    }

    /// Selects position `index` (history index before the first render,
    /// else visual-item index); positions without an entry are ignored.
    pub fn set_selected_entry_index(&mut self, index: usize)
        ensures
            *final(self) == with_selected_index(*old(self), index as int),
    {
        let id: Option<ChatEntryId> = if self.ui.visual_items.len() == 0 {
            if index < self.core.history.len() {
                Some(self.core.history[index].id)
            } else {
                None
            }
        } else if index < self.ui.visual_items.len() {
            let hi = match self.ui.visual_items[index] {
                VisualItem::Entry(x) => x,
                VisualItem::CollapsedIgnoredBlock { start, .. } => start,
            };
            if hi < self.core.history.len() {
                Some(self.core.history[hi].id)
            } else {
                None
            }
        } else {
            None
        };
        if let Some(id) = id {
            self.ui.selected_cursor_id = Some(id);
        }
    }

    /// Whether position `idx` may hold the cursor in the current mode.
    pub(crate) fn is_selectable(&self, idx: usize) -> (b: bool)
        ensures
            b == selectable(*self, idx as int),
    {
        if self.ui.visual_items.len() == 0 {
            idx < self.core.history.len() && !self.core.history[idx].is_empty_assistant()
        } else if idx < self.ui.visual_items.len() {
            match self.ui.visual_items[idx] {
                VisualItem::CollapsedIgnoredBlock { .. } => true,
                VisualItem::Entry(x) => x < self.core.history.len()
                    && !self.core.history[x].is_empty_assistant(),
            }
        } else {
            false
        }
    }

    /// Moves the cursor to the next selectable visual item (toward newer
    /// messages), starting after the current one, or at the first item when
    /// nothing is selected; clamps at the last item. Does nothing when the
    /// visual items have not been built yet.
    pub fn select_next_entry(&mut self)
        ensures
            old(self).ui.visual_items@.len() == 0 ==> *final(self) == *old(self),
            old(self).ui.visual_items@.len() > 0 ==> forall|j: int|
                #[trigger] first_selectable_in(*old(self), next_start(*old(self)), position_count(*old(self)) - 1, j)
                ==> *final(self) == with_selected_index(*old(self), j),
            old(self).ui.visual_items@.len() > 0 ==> (forall|j: int|
                !#[trigger] first_selectable_in(*old(self), next_start(*old(self)), position_count(*old(self)) - 1, j))
                ==> *final(self) == *old(self),
    {
        if self.ui.visual_items.len() == 0 {
            return;
        }
        let count = self.ui.visual_items.len();
        let max = count - 1;
        let start = match self.selected_entry_index() {
            Some(i) => if i < max && i + 1 < max { i + 1 } else { max },
            None => 0,
        };
        assert(max as int == position_count(*old(self)) - 1);
        assert(start as int == next_start(*old(self)));
        let mut idx = start;
        while idx < max && !self.is_selectable(idx)
            invariant
                *self == *old(self),
                start <= idx <= max,
                max == position_count(*self) - 1,
                start as int == next_start(*old(self)),
                forall|k: int| start <= k < idx ==> !#[trigger] selectable(*self, k),
            decreases max - idx,
        {
            idx = idx + 1;
        }
        if self.is_selectable(idx) {
            proof {
                assert(first_selectable_in(*self, start as int, max as int, idx as int));
                assert(first_selectable_in(*old(self), start as int, max as int, idx as int));
                assert forall|j: int| #[trigger] first_selectable_in(*self, start as int, max as int, j)
                    implies j == idx by {
                    if j < idx {
                        assert(!selectable(*self, j));
                    }
                    if idx < j {
                        assert(!selectable(*self, idx as int));
                    }
                }
            }
            self.set_selected_entry_index(idx);
        } else {
            proof {
                assert(idx == max);
                assert forall|j: int| !first_selectable_in(*self, start as int, max as int, j) by {
                    if start <= j < max {
                        assert(!selectable(*self, j));
                    }
                }
            }
        }
    }

    /// Moves the cursor to the previous selectable visual item (toward older
    /// messages), starting before the current one, or at the last item when
    /// nothing is selected; clamps at the first item. Does nothing when the
    /// visual items have not been built yet.
    pub fn select_prev_entry(&mut self)
        ensures
            old(self).ui.visual_items@.len() == 0 ==> *final(self) == *old(self),
            old(self).ui.visual_items@.len() > 0 ==> forall|j: int|
                #[trigger] last_selectable_in(*old(self), 0, prev_start(*old(self)), j)
                ==> *final(self) == with_selected_index(*old(self), j),
            old(self).ui.visual_items@.len() > 0 ==> (forall|j: int|
                !#[trigger] last_selectable_in(*old(self), 0, prev_start(*old(self)), j))
                ==> *final(self) == *old(self),
    {
        if self.ui.visual_items.len() == 0 {
            return;
        }
        let count = self.ui.visual_items.len();
        let start = match self.selected_entry_index() {
            Some(i) => if i > 0 { i - 1 } else { 0 },
            None => count - 1,
        };
        assert(start as int == prev_start(*old(self)));
        let mut idx = start;
        while idx > 0 && !self.is_selectable(idx)
            invariant
                *self == *old(self),
                0 <= idx <= start,
                start as int == prev_start(*old(self)),
                forall|k: int| idx < k <= start ==> !#[trigger] selectable(*self, k),
            decreases idx,
        {
            idx = idx - 1;
        }
        if self.is_selectable(idx) {
            proof {
                assert(last_selectable_in(*self, 0, start as int, idx as int));
                assert(last_selectable_in(*old(self), 0, start as int, idx as int));
                assert forall|j: int| #[trigger] last_selectable_in(*self, 0, start as int, j)
                    implies j == idx by {
                    if j < idx {
                        assert(!selectable(*self, idx as int));
                    }
                    if idx < j {
                        assert(!selectable(*self, j));
                    }
                }
            }
            self.set_selected_entry_index(idx);
        } else {
            proof {
                assert(idx == 0);
                assert forall|j: int| !last_selectable_in(*self, 0, start as int, j) by {
                    if 0 < j <= start {
                        assert(!selectable(*self, j));
                    }
                }
            }
        }
    }
}


/// The history index of the selected item: the selected index itself before
/// the first render, the entry of a selected entry item, `None` for a
/// collapsed block or when nothing is selected.
pub open spec fn selected_hist(s: ChatSessionState) -> Option<int> {
    match selected_index(s) {
        None => None,
        Some(i) => if s.ui.visual_items@.len() == 0 {
            Some(i)
        } else if 0 <= i < s.ui.visual_items@.len() {
            match s.ui.visual_items@[i] {
                VisualItem::Entry(h) => Some(h as int),
                VisualItem::CollapsedIgnoredBlock { .. } => None,
            }
        } else {
            None
        },
    }
}

/// Whether the cursor rests on a collapsed block.
pub open spec fn on_collapsed_block(s: ChatSessionState) -> bool {
    match selected_index(s) {
        Some(i) => 0 <= i < s.ui.visual_items@.len()
            && s.ui.visual_items@[i] is CollapsedIgnoredBlock,
        None => false,
    }
}

/// What is left of a taken ignore sweep whose last press was `elapsed_ms`
/// milliseconds ago: its target while under a tenth of a second, else nothing.
pub fn ignore_sweep_outcome(elapsed_ms: u128, target: ContextOverride) -> (r: Option<ContextOverride>)
    ensures
        r == (if elapsed_ms < 100 { Some(target) } else { None }),
{
    if elapsed_ms < 100 {
        Some(target)
    } else {
        None
    }
}

impl ChatSessionState {
    /// The history index of the selected item; `None` for a collapsed block.
    pub fn selected_history_index(&self) -> (r: Option<usize>)
        ensures
            match r {
                Some(h) => selected_hist(*self) == Some(h as int),
                None => selected_hist(*self) is None,
            },
    {
        let i = match self.selected_entry_index() {
            Some(i) => i,
            None => return None,
        };
        if self.ui.visual_items.len() == 0 {
            return Some(i);
        }
        if i >= self.ui.visual_items.len() {
            return None;
        }
        match self.ui.visual_items[i] {
            VisualItem::Entry(h) => Some(h),
            VisualItem::CollapsedIgnoredBlock { .. } => None,
        }
    }

    /// The selected entry; `None` for a collapsed block or when nothing is selected.
    pub fn selected_entry(&self) -> (r: Option<&ChatEntry>)
        ensures
            match selected_hist(*self) {
                Some(h) if 0 <= h < self.core.history@.len() => r == Some(&self.core.history@[h]),
                _ => r is None,
            },
    {
        match self.selected_history_index() {
            Some(h) => if h < self.core.history.len() {
                Some(&self.core.history[h])
            } else {
                None
            },
            None => None,
        }
    }

    /// The id of the selected entry; `None` for a collapsed block or when
    /// nothing is selected.
    pub fn selected_entry_id(&self) -> (r: Option<&ChatEntryId>)
        ensures
            match selected_hist(*self) {
                Some(h) if 0 <= h < self.core.history@.len() => r == Some(&self.core.history@[h].id),
                _ => r is None,
            },
    {
        match self.selected_entry() {
            Some(e) => Some(&e.id),
            None => None,
        }
    }

    /// The visual item under the cursor, if any.
    pub fn selected_visual_item(&self) -> (r: Option<VisualItem>)
        ensures
            match selected_index(*self) {
                Some(i) if 0 <= i < self.ui.visual_items@.len() => r == Some(self.ui.visual_items@[i]),
                _ => r is None,
            },
    {
        match self.selected_entry_index() {
            Some(i) => if i < self.ui.visual_items.len() {
                Some(self.ui.visual_items[i])
            } else {
                None
            },
            None => None,
        }
    }

    /// Whether the cursor rests on a collapsed block of ignored entries.
    pub fn is_selected_collapsed_block(&self) -> (b: bool)
        ensures
            b == on_collapsed_block(*self),
    {
        match self.selected_visual_item() {
            Some(VisualItem::CollapsedIgnoredBlock { .. }) => true,
            _ => false,
        }
    }

    /// Stores the visual items computed by the last render.
    pub fn set_visual_items(&mut self, items: Vec<VisualItem>)
        ensures
            *final(self) == (ChatSessionState {
                ui: SessionUi { visual_items: items, ..old(self).ui },
                ..*old(self)
            }),
    {
        self.ui.visual_items = items;
    }

    /// The visual items of the last render.
    pub fn visual_items(&self) -> (r: &[VisualItem])
        ensures
            r@ == self.ui.visual_items@,
    {
        self.ui.visual_items.as_slice()
    }

    /// Takes the ignore sweep: its target when the last press was under a
    /// tenth of a second ago. The sweep is cleared either way.
    pub fn take_ignore_sweep(&mut self) -> (r: Option<ContextOverride>)
        ensures
            *final(self) == (ChatSessionState {
                ui: SessionUi { ignore_sweep: None, ..old(self).ui },
                ..*old(self)
            }),
            old(self).ui.ignore_sweep is None ==> r is None,
            r is Some ==> old(self).ui.ignore_sweep is Some
                && r == Some((old(self).ui.ignore_sweep->0).1),
    {
        let taken = self.ui.ignore_sweep.take();
        match taken {
            None => None,
            Some((instant, target)) => {
                let ms = elapsed_millis(&instant);
                ignore_sweep_outcome(ms, target)
            },
        }
    }

    /// Starts or continues an ignore sweep toward `target`, stamped now.
    pub fn set_ignore_sweep(&mut self, target: ContextOverride)
        ensures
            final(self).ui.ignore_sweep is Some,
            (final(self).ui.ignore_sweep->0).1 == target,
            final(self).core == old(self).core,
            final(self).ui == (SessionUi { ignore_sweep: final(self).ui.ignore_sweep, ..old(self).ui }),
    {
        self.ui.ignore_sweep = Some((instant_now(), target));
    }

    /// Ends any ignore sweep.
    pub fn clear_ignore_sweep(&mut self)
        ensures
            *final(self) == (ChatSessionState {
                ui: SessionUi { ignore_sweep: None, ..old(self).ui },
                ..*old(self)
            }),
    {
        self.ui.ignore_sweep = None;
    }
}

} // verus!
