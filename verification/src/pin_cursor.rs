//! The cursor of the pinned-entries list when an entry is unpinned.
use vstd::prelude::*;
use crate::entry::ChatEntryId;

verus! {

/// The position of `id` in `ids`: its first occurrence, 0 when absent.
pub open spec fn position_in(ids: Seq<ChatEntryId>, id: ChatEntryId) -> int
    decreases ids.len(),
{
    if ids.len() == 0 {
        0
    } else if ids.last() == id && !ids.drop_last().contains(id) {
        ids.len() - 1
    } else {
        position_in(ids.drop_last(), id)
    }
}

/// Where the cursor goes when the pinned list changes from `before` to
/// `after`: it stays on `selected` while that is still pinned; otherwise it
/// takes the entry now at the position it had, or the last entry when that
/// position is past the end; with no pins left, or nothing selected, there
/// is no selection.
pub open spec fn cursor_after(selected: Option<ChatEntryId>, before: Seq<ChatEntryId>, after: Seq<ChatEntryId>) -> Option<
    ChatEntryId,
> {
    match selected {
        None => None,
        Some(id) => if after.contains(id) {
            Some(id)
        } else if after.len() == 0 {
            None
        } else {
            let at = position_in(before, id);
            Some(after[if at < after.len() { at } else { after.len() - 1 }])
        },
    }
}

/// The first position of `id` in `ids`, 0 when absent.
fn position_of(ids: &Vec<ChatEntryId>, id: ChatEntryId) -> (r: usize)
    ensures
        r as int == position_in(ids@, id),
        ids@.len() > 0 ==> r < ids@.len(),
{
    let n = ids.len();
    let mut i: usize = 0;
    while i < n
        invariant
            n == ids@.len(),
            i <= n,
            forall|k: int| 0 <= k < i ==> ids@[k] != id,
        decreases n - i,
    {
        if ids[i] == id {
            proof {
                lemma_position_first(ids@, id, i as int);
            }
            return i;
        }
        i = i + 1;
    }
    proof {
        lemma_position_absent(ids@, id);
    }
    0
}

/// The position of an entry found first at `i` is `i`.
proof fn lemma_position_first(ids: Seq<ChatEntryId>, id: ChatEntryId, i: int)
    requires
        0 <= i < ids.len(),
        ids[i] == id,
        forall|k: int| 0 <= k < i ==> ids[k] != id,
    ensures
        position_in(ids, id) == i,
    decreases ids.len(),
{
    if i < ids.len() - 1 {
        assert(ids.drop_last()[i] == id);
        assert(ids.drop_last().contains(id));
        lemma_position_first(ids.drop_last(), id, i);
    } else {
        assert(!ids.drop_last().contains(id)) by {
            if ids.drop_last().contains(id) {
                let k = choose|k: int| 0 <= k < ids.drop_last().len() && ids.drop_last()[k] == id;
                assert(ids[k] == id);
            }
        }
    }
}

/// The position of an absent entry is 0.
proof fn lemma_position_absent(ids: Seq<ChatEntryId>, id: ChatEntryId)
    requires
        forall|k: int| 0 <= k < ids.len() ==> ids[k] != id,
    ensures
        position_in(ids, id) == 0,
    decreases ids.len(),
{
    if ids.len() > 0 {
        lemma_position_absent(ids.drop_last(), id);
    }
}

/// Moves the pin cursor after an unpin: `before` and `after` are the pinned
/// entries in display order before and after, `selected` the entry the
/// cursor was on.
pub fn pin_cursor_after_unpin(selected: Option<ChatEntryId>, before: &Vec<ChatEntryId>, after: &Vec<ChatEntryId>) -> (r:
    Option<ChatEntryId>)
    ensures
        r == cursor_after(selected, before@, after@),
{
    if selected.is_none() {
        return None;
    }
    let id = selected.unwrap();
    let n = after.len();
    let mut i: usize = 0;
    while i < n
        invariant
            n == after@.len(),
            selected == Some(id),
            i <= n,
            forall|k: int| 0 <= k < i ==> after@[k] != id,
        decreases n - i,
    {
        if after[i] == id {
            assert(after@.contains(id));
            return Some(id);
        }
        i = i + 1;
    }
    assert(!after@.contains(id));
    if n == 0 {
        return None;
    }
    let at = position_of(before, id);
    let clamped = if at < n { at } else { n - 1 };
    Some(after[clamped])
}

} // verus!
