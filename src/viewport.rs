use vstd::prelude::*;

use crate::editor::{blank_cell, Cell};
use crate::style::Style;

verus! {

/// One coordinate whose cell differs between two frames, with the new cell.
#[derive(Clone, Copy, Debug, PartialEq, Eq, Structural)]
pub struct ChangedCell {
    pub row: usize,
    pub col: usize,
    pub cell: Cell,
}

/// A fixed-size grid of cells, stored row by row; one rendering layer.
#[derive(Clone, Debug)]
pub struct Viewport {
    pub width: usize,
    pub height: usize,
    pub cells: Vec<Cell>,
}

/// The index of `(col, row)` in a row-major grid of width `w`.
pub open spec fn index_of(w: int, col: int, row: int) -> int {
    row * w + col
}

/// The changes among the first `n` cells, in row-major order: each index
/// where `new` and `old` differ, with the cell of `new`.
pub open spec fn changes_upto(new: Seq<Cell>, old: Seq<Cell>, w: nat, n: nat) -> Seq<ChangedCell>
    decreases n,
{
    if n == 0 {
        Seq::empty()
    } else {
        let i = n - 1;
        let prev = changes_upto(new, old, w, i as nat);
        if new[i] != old[i] {
            prev.push(ChangedCell { row: (i / w as int) as usize, col: (i % w as int) as usize, cell: new[i] })
        } else {
            prev
        }
    }
}

/// A grid after each change is written in turn at its coordinate.
pub open spec fn apply_changes(grid: Seq<Cell>, w: nat, cs: Seq<ChangedCell>) -> Seq<Cell>
    decreases cs.len(),
{
    if cs.len() == 0 {
        grid
    } else {
        let c = cs.last();
        apply_changes(grid, w, cs.drop_last()).update(
            index_of(w as int, c.col as int, c.row as int),
            c.cell,
        )
    }
}

/// The cell at index `i` once `text` has been written from `(col, row)`,
/// clipped at the right edge.
pub open spec fn text_cell(
    old: Seq<Cell>,
    w: int,
    h: int,
    col: int,
    row: int,
    text: Seq<char>,
    style: Style,
    i: int,
) -> Cell {
    let k = i - index_of(w, col, row);
    if row < h && 0 <= k < text.len() && col + k < w {
        Cell { c: text[k], style }
    } else {
        old[i]
    }
}

proof fn lemma_index_in_grid(w: int, h: int, col: int, row: int)
    requires
        0 <= col < w,
        0 <= row < h,
    ensures
        0 <= index_of(w, col, row) < w * h,
{
    assert(0 <= row * w + col < w * h) by (nonlinear_arith)
        requires
            0 <= col < w,
            0 <= row < h,
    ;
}

impl Viewport {
    pub open spec fn wf(&self) -> bool {
        &&& self.cells@.len() == self.width * self.height
        &&& self.width * self.height <= usize::MAX
    }

    /// A grid of `width` by `height` default cells.
    pub fn new(width: usize, height: usize) -> (r: Viewport)
        requires
            width * height <= usize::MAX,
        ensures
            r.wf(),
            r.width == width,
            r.height == height,
            forall|i: int| 0 <= i < r.cells@.len() ==> #[trigger] r.cells@[i] == blank_cell(),
    {
        let n = width * height;
        let mut cells: Vec<Cell> = Vec::new();
        let mut i: usize = 0;
        while i < n
            invariant
                i <= n,
                cells@.len() == i,
                forall|j: int| 0 <= j < i ==> #[trigger] cells@[j] == blank_cell(),
            decreases n - i,
        {
            cells.push(Cell::default());
            i = i + 1;
        }
        Viewport { width, height, cells }
    }

    /// Overwrites one cell; a write outside the grid is ignored.
    pub fn set_cell(&mut self, col: usize, row: usize, c: char, style: &Style)
        requires
            old(self).wf(),
        ensures
            final(self).wf(),
            final(self).width == old(self).width,
            final(self).height == old(self).height,
            col < old(self).width && row < old(self).height ==> final(self).cells@ == old(
                self,
            ).cells@.update(index_of(old(self).width as int, col as int, row as int), Cell { c, style: *style }),
            !(col < old(self).width && row < old(self).height) ==> final(self).cells@ == old(
                self,
            ).cells@,
    {
        if col < self.width && row < self.height {
            proof {
                lemma_index_in_grid(self.width as int, self.height as int, col as int, row as int);
            }
            let i = row * self.width + col;
            self.cells.set(i, Cell { c, style: *style });
        }
    }

    /// Writes `text` left to right from `(col, row)`, clipped at the right
    /// edge; nothing is written on a row outside the grid.
    pub fn set_text(&mut self, col: usize, row: usize, text: &str, style: &Style)
        requires
            old(self).wf(),
        ensures
            final(self).wf(),
            final(self).width == old(self).width,
            final(self).height == old(self).height,
            forall|i: int|
                0 <= i < old(self).cells@.len() ==> #[trigger] final(self).cells@[i] == text_cell(
                    old(self).cells@,
                    old(self).width as int,
                    old(self).height as int,
                    col as int,
                    row as int,
                    text@,
                    *style,
                    i,
                ),
    {
        let ghost start = self.cells@;
        let w = self.width;
        let n = text.unicode_len();
        if row >= self.height || col >= w {
            return;
        }
        let room = w - col;
        let mut k: usize = 0;
        while k < n && k < room
            invariant
                self.wf(),
                self.width == w,
                self.height == old(self).height,
                w == old(self).width,
                row < self.height,
                col < w,
                room == w - col,
                n == text@.len(),
                k <= n,
                k <= room,
                self.cells@.len() == start.len(),
                start == old(self).cells@,
                forall|i: int|
                    0 <= i < start.len() ==> #[trigger] self.cells@[i] == text_cell(
                        start,
                        w as int,
                        self.height as int,
                        col as int,
                        row as int,
                        text@.take(k as int),
                        *style,
                        i,
                    ),
            decreases n - k,
        {
            let c = text.get_char(k);
            proof {
                lemma_index_in_grid(w as int, self.height as int, (col + k) as int, row as int);
            }
            self.set_cell(col + k, row, c, style);
            k = k + 1;
            assert forall|i: int| 0 <= i < start.len() implies #[trigger] self.cells@[i] == text_cell(
                start,
                w as int,
                self.height as int,
                col as int,
                row as int,
                text@.take(k as int),
                *style,
                i,
            ) by {
                assert(text@.take(k as int).len() == k);
                if i != index_of(w as int, col as int, row as int) + k - 1 {
                    let j = i - index_of(w as int, col as int, row as int);
                    if 0 <= j < k - 1 {
                        assert(text@.take(k as int)[j] == text@.take(k - 1)[j]);
                    }
                }
            }
        }
        assert forall|i: int| 0 <= i < start.len() implies #[trigger] self.cells@[i] == text_cell(
            start,
            w as int,
            self.height as int,
            col as int,
            row as int,
            text@,
            *style,
            i,
        ) by {
            let j = i - index_of(w as int, col as int, row as int);
            if 0 <= j < k {
                assert(text@.take(k as int)[j] == text@[j]);
            }
        }
    }

    /// The cells of `self` that differ from `previous`, in row-major order.
    pub fn diff(&self, previous: &Viewport) -> (r: Vec<ChangedCell>)
        requires
            self.wf(),
            previous.wf(),
            self.width == previous.width,
            self.height == previous.height,
        ensures
            r@ == changes_upto(self.cells@, previous.cells@, self.width as nat, self.cells@.len()),
    {
        let n = self.cells.len();
        let w = self.width;
        let mut out: Vec<ChangedCell> = Vec::new();
        let mut i: usize = 0;
        let mut row: usize = 0;
        let mut col: usize = 0;
        assert(w == 0 ==> w * self.height == 0) by (nonlinear_arith);
        while i < n
            invariant
                n == self.cells@.len(),
                n == previous.cells@.len(),
                n == w * self.height,
                w == self.width,
                i <= n,
                i == row * w + col,
                i < n ==> col < w,
                out@ == changes_upto(self.cells@, previous.cells@, w as nat, i as nat),
            decreases n - i,
        {
            proof {
                vstd::arithmetic::div_mod::lemma_fundamental_div_mod_converse(
                    i as int,
                    w as int,
                    row as int,
                    col as int,
                );
            }
            if self.cells[i] != previous.cells[i] {
                out.push(ChangedCell { row, col, cell: self.cells[i] });
            }
            i = i + 1;
            if col + 1 == w {
                col = 0;
                row = row + 1;
                assert(i == row * w + col) by (nonlinear_arith)
                    requires
                        i == (row - 1) * w + (w - 1) + 1,
                        col == 0,
                ;
            } else {
                col = col + 1;
            }
            if i < n {
                assert(col < w);
            }
        }
        out
    }
}

/// A frame diffed against itself has no changes.
pub proof fn lemma_diff_self_empty(v: Viewport)
    requires
        v.wf(),
    ensures
        changes_upto(v.cells@, v.cells@, v.width as nat, v.cells@.len()).len() == 0,
{
    lemma_changes_same(v.cells@, v.width as nat, v.cells@.len());
}

pub(crate) proof fn lemma_changes_same(s: Seq<Cell>, w: nat, n: nat)
    requires
        n <= s.len(),
    ensures
        changes_upto(s, s, w, n).len() == 0,
    decreases n,
{
    if n > 0 {
        lemma_changes_same(s, w, (n - 1) as nat);
    }
}

/// Writing every change of `new.diff(old)` onto `old` gives `new`.
pub proof fn lemma_diff_complete(new: Viewport, old: Viewport)
    requires
        new.wf(),
        old.wf(),
        new.width == old.width,
        new.height == old.height,
    ensures
        apply_changes(
            old.cells@,
            old.width as nat,
            changes_upto(new.cells@, old.cells@, new.width as nat, new.cells@.len()),
        ) == new.cells@,
{
    let n = new.cells@.len();
    assert(new.width == 0 ==> new.width * new.height == 0) by (nonlinear_arith);
    lemma_apply_prefix(new.cells@, old.cells@, new.width as nat, n);
    assert(Seq::new(n, |j: int| if j < n { new.cells@[j] } else { old.cells@[j] }) =~= new.cells@);
}

pub(crate) proof fn lemma_apply_prefix(new: Seq<Cell>, old: Seq<Cell>, w: nat, n: nat)
    requires
        new.len() == old.len(),
        n <= new.len(),
        new.len() <= usize::MAX,
        w == 0 ==> new.len() == 0,
    ensures
        apply_changes(old, w, changes_upto(new, old, w, n)) == Seq::new(
            old.len(),
            |j: int|
                if j < n {
                    new[j]
                } else {
                    old[j]
                },
        ),
    decreases n,
{
    let target = Seq::new(old.len(), |j: int| if j < n { new[j] } else { old[j] });
    if n == 0 {
        assert(old =~= target);
    } else {
        let i = n - 1;
        lemma_apply_prefix(new, old, w, i as nat);
        let prev = Seq::new(old.len(), |j: int| if j < i { new[j] } else { old[j] });
        if new[i] != old[i] {
            let c = ChangedCell { row: (i / w as int) as usize, col: (i % w as int) as usize, cell: new[i] };
            let cs = changes_upto(new, old, w, i as nat).push(c);
            assert(cs.drop_last() =~= changes_upto(new, old, w, i as nat));
            vstd::arithmetic::div_mod::lemma_fundamental_div_mod(i as int, w as int);
            vstd::arithmetic::div_mod::lemma_div_pos_is_pos(i as int, w as int);
            vstd::arithmetic::div_mod::lemma_mod_pos_bound(i as int, w as int);
            assert(i / (w as int) <= i) by (nonlinear_arith)
                requires
                    i == (w as int) * (i / w as int) + i % (w as int),
                    0 <= i % (w as int),
                    0 <= i / (w as int),
                    w >= 1,
            ;
            assert(index_of(w as int, c.col as int, c.row as int) == i) by (nonlinear_arith)
                requires
                    i == (w as int) * (i / w as int) + i % (w as int),
                    c.col as int == i % (w as int),
                    c.row as int == i / (w as int),
            ;
            assert(prev.update(i, new[i]) =~= target);
        } else {
            assert(prev =~= target);
        }
    }
}

} // verus!
