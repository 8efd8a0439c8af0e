//! The scroll window of a long list inside a panel of bounded height.

use vstd::prelude::*;

verus! {

/// The three-way rule before clamping: the top of the list is pinned while the
/// cursor is within `buffer` lines of it, the bottom is pinned once the cursor
/// is within `buffer` lines of the end, and in between the window follows the
/// cursor at a distance of `buffer`.
pub open spec fn window_start(selected: int, len: int, buffer: int) -> int {
    if selected < buffer {
        0
    } else if selected <= len - buffer {
        selected - buffer
    } else {
        len - 2 * buffer
    }
}

/// The offset of the first visible line: `window_start`, never negative.
pub open spec fn scroll_offset_of(selected: int, len: int, buffer: int) -> int {
    let start = window_start(selected, len, buffer);
    if start < 0 {
        0
    } else {
        start
    }
}

/// Computes the offset of the first visible line of a list of `len` lines in
/// which line `selected` is the cursor and `buffer` lines are kept visible
/// around it.
pub fn scroll_offset(selected: isize, len: usize, buffer: u16) -> (offset: usize)
    ensures
        offset == scroll_offset_of(selected as int, len as int, buffer as int),
{
    let keep: usize = buffer as usize;
    if selected < buffer as isize {
        return 0;
    }
    let cursor: usize = selected as usize;
    if cursor + keep <= len {
        cursor - keep
    } else if len >= 2 * keep {
        len - 2 * keep
    } else {
        0
    }
}

/// The offset never decreases when the cursor moves down the list.
pub proof fn scroll_offset_monotone(a: int, b: int, len: int, buffer: int)
    requires
        a <= b,
        0 <= len,
        0 <= buffer,
    ensures
        scroll_offset_of(a, len, buffer) <= scroll_offset_of(b, len, buffer),
{
}

/// The offset is never negative and never beyond the length of the list.
pub proof fn scroll_offset_within_list(selected: int, len: int, buffer: int)
    requires
        0 <= len,
        0 <= buffer,
    ensures
        0 <= scroll_offset_of(selected, len, buffer) <= len,
{
}

/// The offset points at a line of the list (or is 0 for an empty list), as long
/// as some buffer is kept or the cursor itself is on a line of the list.
pub proof fn scroll_offset_on_a_line(selected: int, len: int, buffer: int)
    requires
        0 <= len,
        0 <= buffer,
        buffer >= 1 || selected < len || len == 0,
    ensures
        0 <= scroll_offset_of(selected, len, buffer),
        scroll_offset_of(selected, len, buffer) <= if len >= 1 { len - 1 } else { 0 },
{
}

} // verus!
