use vstd::prelude::*;

use crate::editor::{Position, Rect};

verus! {

/// The scroll offset after one adjustment for a cursor at `(y, x)` (row and
/// column, 0-indexed) in an area of `w` columns by `h` rows. The rules are
/// tried in order and the first that applies is the only one used, so one
/// call corrects at most one axis.
pub open spec fn next_scroll(x: nat, y: nat, w: nat, h: nat, scroll: Position) -> Position {
    if sat_sub(y + 1, scroll.row as nat) >= h {
        // at or below the last visible row: the cursor goes to the last row
        Position { row: (y + 1 - h) as usize, col: scroll.col }
    } else if sat_sub(y + 1, scroll.row as nat) == 0 {
        // above the first visible row: the cursor goes to the first row
        Position { row: y as usize, col: scroll.col }
    } else if sat_sub(x, scroll.col as nat) >= w {
        // right of the last visible column
        Position { row: scroll.row, col: (x + 1 - w) as usize }
    } else if sat_sub(x + 1, scroll.col as nat) == 0 {
        // left of the first visible column
        Position { row: scroll.row, col: x as usize }
    } else {
        scroll
    }
}

/// `a - b`, or 0 where `b` is larger.
pub open spec fn sat_sub(a: nat, b: nat) -> nat {
    if a >= b {
        (a - b) as nat
    } else {
        0
    }
}

/// The scroll offset that keeps `cursor` in view of `area`, corrected on
/// one axis at most.
pub fn scroll_for(cursor: &Position, area: &Rect, scroll: &Position) -> (r: Position)
    requires
        cursor.row < usize::MAX,
        cursor.col < usize::MAX,
    ensures
        r == next_scroll(
            cursor.col as nat,
            cursor.row as nat,
            area.width as nat,
            area.height as nat,
            *scroll,
        ),
{
    let width = area.width;
    let height = area.height;
    let x = cursor.col;
    let y = cursor.row;
    let mut next = *scroll;
    if (y + 1).saturating_sub(scroll.row) >= height {
        next.row = y + 1 - height;
    } else if (y + 1).saturating_sub(scroll.row) == 0 {
        next.row = y;
    } else if x.saturating_sub(scroll.col) >= width {
        next.col = x + 1 - width;
    } else if (x + 1).saturating_sub(scroll.col) == 0 {
        next.col = x;
    }
    next
}

/// Whether the cursor lies in the visible region.
pub open spec fn in_view(x: nat, y: nat, w: nat, h: nat, scroll: Position) -> bool {
    &&& scroll.row <= y < scroll.row + h
    &&& scroll.col <= x < scroll.col + w
}

/// With the cursor held still, repeated adjustments settle after two calls:
/// a third changes nothing. Each call moves one axis at most, and only to
/// the offset that puts the cursor on the nearest edge of the area. Once
/// settled, the cursor's row is in view; its column is in view too, except
/// when the cursor's row sits on the last visible row, where the row rule
/// keeps matching and the column is never corrected.
pub proof fn lemma_scroll_settles(x: nat, y: nat, w: nat, h: nat, s0: Position)
    requires
        w >= 1,
        h >= 1,
        x < usize::MAX,
        y < usize::MAX,
    ensures
        ({
            let s1 = next_scroll(x, y, w, h, s0);
            let s2 = next_scroll(x, y, w, h, s1);
            &&& next_scroll(x, y, w, h, s2) == s2
            &&& s2.row <= y < s2.row + h
            &&& (y + 1 != s2.row + h ==> in_view(x, y, w, h, s2))
        }),
        ({
            let s1 = next_scroll(x, y, w, h, s0);
            &&& (s1.row == s0.row || s1.col == s0.col)
            &&& (s1.row != s0.row ==> (s1.row == y + 1 - h || s1.row == y))
            &&& (s1.col != s0.col ==> (s1.col == x + 1 - w || s1.col == x))
        }),
{
}

/// One adjustment always brings the cursor's row into view, moving the
/// offset only as far as the nearest edge: to the cursor's row when it was
/// above the area, to put it on the last row when it was below, and not at
/// all when the row was already in view.
pub proof fn lemma_scroll_row_in_view(x: nat, y: nat, w: nat, h: nat, s: Position)
    requires
        h >= 1,
        y < usize::MAX,
        x < usize::MAX,
    ensures
        ({
            let r = next_scroll(x, y, w, h, s).row;
            &&& r <= y < r + h
            &&& (y < s.row ==> r == y)
            &&& (y >= s.row + h ==> r == y + 1 - h)
            &&& (s.row <= y < s.row + h ==> r == s.row)
        }),
{
}

} // verus!
