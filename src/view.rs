use vstd::prelude::*;

use crate::config::Config;
use crate::editor::{blank_cell, Cell, Mode, Position, Rect};
use crate::gutter::{gutter_for, Gutter, LineGutter};
use crate::scroll::{next_scroll, scroll_for};
use crate::style::{resolved, Style};
use crate::viewport::{
    apply_changes, changes_upto, index_of, lemma_apply_prefix, lemma_changes_same, text_cell,
    ChangedCell, Viewport,
};

verus! {

/// The buffer line (0-indexed, counted from the first visible line) of the
/// `k`-th content cell: the newlines before it.
pub open spec fn line_of(cells: Seq<Cell>, k: int) -> nat
    decreases k,
{
    if k <= 0 {
        0
    } else if cells[k - 1].c == '\n' {
        line_of(cells, k - 1) + 1
    } else {
        line_of(cells, k - 1)
    }
}

/// The column of the `k`-th content cell within its line.
pub open spec fn column_of(cells: Seq<Cell>, k: int) -> nat
    decreases k,
{
    if k <= 0 {
        0
    } else if cells[k - 1].c == '\n' {
        0
    } else {
        column_of(cells, k - 1) + 1
    }
}

/// A newline is shown as a space, so that its background is drawn.
pub open spec fn shown_char(c: char) -> char {
    if c == '\n' {
        ' '
    } else {
        c
    }
}

/// The grid once the first `n` content cells are drawn in turn: the cell in
/// column `j` of visible line `r` goes to `(gutter + j - scroll_col, r)`
/// when that lies right of the gutter and inside the grid.
pub open spec fn painted(
    grid: Seq<Cell>,
    w: nat,
    h: nat,
    cells: Seq<Cell>,
    gutter: nat,
    scroll_col: nat,
    n: int,
) -> Seq<Cell>
    decreases n,
{
    if n <= 0 {
        grid
    } else {
        let k = n - 1;
        let prev = painted(grid, w, h, cells, gutter, scroll_col, k);
        let j = column_of(cells, k);
        let r = line_of(cells, k);
        if j >= scroll_col && gutter + j - scroll_col < w && r < h {
            prev.update(
                index_of(w as int, gutter + j - scroll_col, r as int),
                Cell { c: shown_char(cells[k].c), style: cells[k].style },
            )
        } else {
            prev
        }
    }
}

/// The grid once the first `n` gutter labels are written, label `r` at the
/// start of row `r`.
pub open spec fn with_labels(
    grid: Seq<Cell>,
    w: nat,
    h: nat,
    labels: Seq<Seq<char>>,
    style: Style,
    n: int,
) -> Seq<Cell>
    decreases n,
{
    if n <= 0 {
        grid
    } else {
        let prev = with_labels(grid, w, h, labels, style, n - 1);
        Seq::new(
            prev.len(),
            |i: int| text_cell(prev, w as int, h as int, 0, n - 1, labels[n - 1], style, i),
        )
    }
}

/// Every cell of a grid, in row-major order: the changes of a full redraw.
pub open spec fn every_cell(cells: Seq<Cell>, w: nat) -> Seq<ChangedCell> {
    Seq::new(
        cells.len(),
        |i: int| ChangedCell { row: (i / w as int) as usize, col: (i % w as int) as usize, cell: cells[i] },
    )
}

/// Layer changes moved to terminal coordinates, with styles resolved.
pub open spec fn placed(cs: Seq<ChangedCell>, area: Rect, default: Style) -> Seq<ChangedCell> {
    Seq::new(
        cs.len(),
        |i: int|
            ChangedCell {
                row: (area.row + cs[i].row) as usize,
                col: (area.col + cs[i].col) as usize,
                cell: Cell { c: cs[i].cell.c, style: resolved(cs[i].cell.style, default) },
            },
    )
}

/// The column the hardware cursor rests on: in normal mode at most the
/// line's last character, in the other modes one past it; column 0 where
/// the cursor's line is unknown.
pub open spec fn clamped_col(mode: Mode, col: nat, line_len: Option<usize>) -> nat {
    match line_len {
        Some(len) => {
            let last = if mode == Mode::Normal {
                if len >= 2 {
                    (len - 2) as nat
                } else {
                    0
                }
            } else {
                if len >= 1 {
                    (len - 1) as nat
                } else {
                    0
                }
            };
            if col < last {
                col
            } else {
                last
            }
        },
        None => 0,
    }
}

pub open spec fn sat_diff(a: nat, b: nat) -> nat {
    if a >= b {
        (a - b) as nat
    } else {
        0
    }
}

/// Where the hardware cursor goes: the clamped column less the horizontal
/// scroll, right of the gutter, and the row less the vertical scroll.
pub open spec fn cursor_spot(
    mode: Mode,
    cursor: Position,
    line_len: Option<usize>,
    scroll: Position,
    gutter_width: nat,
) -> Position {
    let x = sat_diff(clamped_col(mode, cursor.col as nat, line_len), scroll.col as nat)
        + gutter_width;
    Position {
        row: sat_diff(cursor.row as nat, scroll.row as nat) as usize,
        col: if x > usize::MAX {
            usize::MAX
        } else {
            x as usize
        },
    }
}

/// The content layer a view draws: the gutter labels (when their numbers
/// stay within `usize`), then the content cells, on a blank grid.
pub open spec fn layer(
    v: TuiView,
    cells: Seq<Cell>,
    total_lines: nat,
    cursor_row: nat,
    gutter_style: Style,
) -> Seq<Cell> {
    let w = v.area.width as nat;
    let h = v.area.height as nat;
    let blank = Seq::new(w * h, |_i: int| blank_cell());
    let labels = v.gutter.labels(total_lines, cursor_row, v.scroll.row as nat, h);
    let with_gutter = if v.gutter.in_range(total_lines, cursor_row, v.scroll.row as nat, h) {
        with_labels(blank, w, h, labels, gutter_style, labels.len() as int)
    } else {
        blank
    };
    painted(with_gutter, w, h, cells, v.gutter_width as nat, v.scroll.col as nat, cells.len() as int)
}

/// The changes of the new layer against the previous frame: all of its
/// cells when a full redraw is due or the sizes differ.
pub open spec fn layer_changes(
    new: Seq<Cell>,
    w: nat,
    h: nat,
    previous: Viewport,
    full_redraw: bool,
) -> Seq<ChangedCell> {
    if full_redraw || previous.width != w || previous.height != h {
        every_cell(new, w)
    } else {
        changes_upto(new, previous.cells@, w, new.len())
    }
}

proof fn lemma_coords_in_area(i: int, w: int, h: int)
    requires
        0 <= i < w * h,
        w >= 0,
        h >= 0,
    ensures
        w > 0,
        0 <= i / w < h,
        0 <= i % w < w,
{
    if w <= 0 {
        assert(w * h == 0) by (nonlinear_arith)
            requires
                w == 0,
        ;
    }
    vstd::arithmetic::div_mod::lemma_fundamental_div_mod(i, w);
    vstd::arithmetic::div_mod::lemma_div_pos_is_pos(i, w);
    vstd::arithmetic::div_mod::lemma_mod_pos_bound(i, w);
    let q = i / w;
    let r = i % w;
    assert(q < h) by (nonlinear_arith)
        requires
            i == w * q + r,
            0 <= r,
            0 <= i < w * h,
            w > 0,
    ;
}

proof fn lemma_changes_in_area(new: Seq<Cell>, old: Seq<Cell>, w: nat, h: nat, n: nat)
    requires
        n <= new.len(),
        new.len() == old.len(),
        new.len() == w * h,
    ensures
        forall|k: int|
            0 <= k < changes_upto(new, old, w, n).len() ==> (#[trigger] changes_upto(
                new,
                old,
                w,
                n,
            )[k]).row < h && changes_upto(new, old, w, n)[k].col < w,
    decreases n,
{
    if n > 0 {
        let i = n - 1;
        lemma_changes_in_area(new, old, w, h, i as nat);
        lemma_coords_in_area(i, w as int, h as int);
        assert(i / (w as int) <= i) by (nonlinear_arith)
            requires
                w > 0,
                0 <= i,
        ;
    }
}

fn every_cell_of(v: &Viewport) -> (r: Vec<ChangedCell>)
    requires
        v.wf(),
    ensures
        r@ == every_cell(v.cells@, v.width as nat),
{
    let n = v.cells.len();
    let w = v.width;
    let mut out: Vec<ChangedCell> = Vec::new();
    let mut i: usize = 0;
    let mut row: usize = 0;
    let mut col: usize = 0;
    assert(w == 0 ==> w * v.height == 0) by (nonlinear_arith);
    while i < n
        invariant
            n == v.cells@.len(),
            n == w * v.height,
            w == v.width,
            i <= n,
            i == row * w + col,
            i < n ==> col < w,
            out@.len() == i,
            forall|k: int|
                0 <= k < i ==> #[trigger] out@[k] == every_cell(v.cells@, w as nat)[k],
        decreases n - i,
    {
        proof {
            vstd::arithmetic::div_mod::lemma_fundamental_div_mod_converse(
                i as int,
                w as int,
                row as int,
                col as int,
            );
        }
        out.push(ChangedCell { row, col, cell: v.cells[i] });
        i = i + 1;
        if col + 1 == w {
            col = 0;
            row = row + 1;
            assert(i == row * w + col) by (nonlinear_arith)
                requires
                    i == (row - 1) * w + (w - 1) + 1,
                    col == 0,
            ;
        } else {
            col = col + 1;
        }
    }
    assert(out@ =~= every_cell(v.cells@, w as nat));
    out
}

fn place(cs: &Vec<ChangedCell>, area: &Rect, default: &Style) -> (r: Vec<ChangedCell>)
    requires
        area_fits(*area),
        forall|k: int|
            0 <= k < cs@.len() ==> (#[trigger] cs@[k]).row < area.height && cs@[k].col < area.width,
    ensures
        r@ == placed(cs@, *area, *default),
{
    let mut out: Vec<ChangedCell> = Vec::new();
    let mut k: usize = 0;
    while k < cs.len()
        invariant
            k <= cs@.len(),
            area_fits(*area),
            forall|m: int|
                0 <= m < cs@.len() ==> (#[trigger] cs@[m]).row < area.height && cs@[m].col
                    < area.width,
            out@.len() == k,
            forall|m: int| 0 <= m < k ==> #[trigger] out@[m] == placed(cs@, *area, *default)[m],
        decreases cs@.len() - k,
    {
        let c = cs[k];
        out.push(
            ChangedCell {
                row: area.row + c.row,
                col: area.col + c.col,
                cell: Cell { c: c.cell.c, style: c.cell.style.resolve(default) },
            },
        );
        k = k + 1;
    }
    assert(out@ =~= placed(cs@, *area, *default));
    out
}

/// What one render cycle hands to the terminal: the cells to write, in
/// terminal coordinates and resolved styles, and where the cursor goes.
#[derive(Debug)]
pub struct Frame {
    pub changes: Vec<ChangedCell>,
    pub cursor: Position,
}

/// The content layer of a window: its area, scroll offset and gutter, and
/// the previous frame that the next one is diffed against.
#[derive(Debug)]
pub struct TuiView {
    pub area: Rect,
    pub scroll: Position,
    pub gutter: LineGutter,
    pub gutter_width: usize,
    pub previous: Viewport,
    pub full_redraw: bool,
}

/// An area whose grid and coordinates fit in `usize`.
pub open spec fn area_fits(area: Rect) -> bool {
    &&& area.width * area.height <= usize::MAX
    &&& area.row + area.height <= usize::MAX
    &&& area.col + area.width <= usize::MAX
}

impl TuiView {
    pub open spec fn wf(&self) -> bool {
        &&& area_fits(self.area)
        &&& self.previous.wf()
    }

    /// A view of `area` with the gutter the configuration asks for. Its
    /// first render draws every cell.
    pub fn new(area: Rect, config: &Config) -> (r: TuiView)
        requires
            area_fits(area),
        ensures
            r.wf(),
            r.area == area,
            r.scroll == (Position { row: 0, col: 0 }),
            r.gutter_width == config.gutter_width,
            r.gutter == gutter_for(
                config.line_numbers,
                config.empty_line_char,
                config.gutter_width,
            ),
            r.full_redraw,
    {
        let gutter = LineGutter::from_config(
            config.line_numbers,
            config.empty_line_char,
            config.gutter_width,
        );
        TuiView {
            area,
            scroll: Position { row: 0, col: 0 },
            gutter,
            gutter_width: config.gutter_width,
            previous: Viewport::new(0, 0),
            full_redraw: true,
        }
    }

    pub fn get_area(&self) -> (r: &Rect)
        ensures
            *r == self.area,
    {
        &self.area
    }

    pub fn get_scroll(&self) -> (r: &Position)
        ensures
            *r == self.scroll,
    {
        &self.scroll
    }

    pub fn set_scroll(&mut self, scroll: Position)
        ensures
            *final(self) == (TuiView { scroll, ..*old(self) }),
    {
        self.scroll = scroll;
    }

    /// Moves the view to `new_area`; the next render draws every cell.
    pub fn resize(&mut self, new_area: Rect)
        requires
            old(self).wf(),
            area_fits(new_area),
        ensures
            final(self).wf(),
            *final(self) == (TuiView { area: new_area, full_redraw: true, ..*old(self) }),
    {
        self.area = new_area;
        self.full_redraw = true;
    }

    /// Forgets the previous frame, so that the next render draws every
    /// cell: what an overlay covered is restored once it is dismissed.
    pub fn invalidate(&mut self)
        ensures
            *final(self) == (TuiView { full_redraw: true, ..*old(self) }),
    {
        self.full_redraw = true;
    }

    /// Adjusts the scroll offset to keep `cursor` in view, on one axis at
    /// most.
    pub fn maybe_scroll(&mut self, cursor: &Position)
        requires
            cursor.row < usize::MAX,
            cursor.col < usize::MAX,
        ensures
            *final(self) == (TuiView {
                scroll: next_scroll(
                    cursor.col as nat,
                    cursor.row as nat,
                    old(self).area.width as nat,
                    old(self).area.height as nat,
                    old(self).scroll,
                ),
                ..*old(self)
            }),
    {
        let next = scroll_for(cursor, &self.area, &self.scroll);
        self.scroll = next;
    }

    /// Draws content cells right of the gutter, one buffer line per row,
    /// shifted left by the horizontal scroll.
    pub fn draw(&self, view: &mut Viewport, cells: &[Cell])
        requires
            old(view).wf(),
        ensures
            final(view).wf(),
            final(view).width == old(view).width,
            final(view).height == old(view).height,
            final(view).cells@ == painted(
                old(view).cells@,
                old(view).width as nat,
                old(view).height as nat,
                cells@,
                self.gutter_width as nat,
                self.scroll.col as nat,
                cells@.len() as int,
            ),
    {
        let n = cells.len();
        let w = view.width;
        let h = view.height;
        let gutter = self.gutter_width;
        let scroll_col = self.scroll.col;
        let mut row: usize = 0;
        let mut j: usize = 0;
        let mut k: usize = 0;
        while k < n
            invariant
                n == cells@.len(),
                k <= n,
                row <= k,
                j <= k,
                row == line_of(cells@, k as int),
                j == column_of(cells@, k as int),
                view.wf(),
                w == view.width,
                h == view.height,
                w == old(view).width,
                h == old(view).height,
                gutter == self.gutter_width,
                scroll_col == self.scroll.col,
                view.cells@ == painted(
                    old(view).cells@,
                    w as nat,
                    h as nat,
                    cells@,
                    gutter as nat,
                    scroll_col as nat,
                    k as int,
                ),
            decreases n - k,
        {
            let cell = cells[k];
            if j >= scroll_col && gutter < w && j - scroll_col < w - gutter && row < h {
                let ch = if cell.c == '\n' {
                    ' '
                } else {
                    cell.c
                };
                view.set_cell(gutter + (j - scroll_col), row, ch, &cell.style);
            }
            if cell.c == '\n' {
                row = row + 1;
                j = 0;
            } else {
                j = j + 1;
            }
            k = k + 1;
        }
    }

    /// Where the hardware cursor goes for `cursor`, whose line is `line_len`
    /// characters long (`None` when the buffer has no such line).
    pub fn cursor_position(&self, mode: Mode, cursor: &Position, line_len: Option<usize>) -> (r:
        Position)
        ensures
            r == cursor_spot(mode, *cursor, line_len, self.scroll, self.gutter_width as nat),
    {
        let col = match line_len {
            Some(len) => {
                let last = match mode {
                    Mode::Normal => len.saturating_sub(2),
                    _ => len.saturating_sub(1),
                };
                if cursor.col < last {
                    cursor.col
                } else {
                    last
                }
            },
            None => 0,
        };
        Position {
            row: cursor.row.saturating_sub(self.scroll.row),
            col: col.saturating_sub(self.scroll.col).saturating_add(self.gutter_width),
        }
    }

    /// One render cycle at the current scroll offset: draws a fresh layer of
    /// gutter and content, diffs it against the previous frame and keeps it
    /// as the new previous frame. Returns the changed cells in terminal
    /// coordinates with resolved styles, and the cursor's place. Callers
    /// adjust the scroll first (`maybe_scroll`) and take `cells` from the
    /// buffer's lines at the resulting offset.
    pub fn render(
        &mut self,
        cells: &[Cell],
        total_lines: usize,
        cursor: &Position,
        line_len: Option<usize>,
        mode: Mode,
        default_style: &Style,
        gutter_style: &Style,
    ) -> (frame: Frame)
        requires
            old(self).wf(),
        ensures
            ({
                let new = layer(*old(self), cells@, total_lines as nat, cursor.row as nat, *gutter_style);
                &&& final(self).wf()
                &&& *final(self) == (TuiView {
                    previous: final(self).previous,
                    full_redraw: false,
                    ..*old(self)
                })
                &&& final(self).previous.width == old(self).area.width
                &&& final(self).previous.height == old(self).area.height
                &&& final(self).previous.cells@ == new
                &&& frame.changes@ == placed(
                    layer_changes(
                        new,
                        old(self).area.width as nat,
                        old(self).area.height as nat,
                        old(self).previous,
                        old(self).full_redraw,
                    ),
                    old(self).area,
                    *default_style,
                )
                &&& frame.cursor == cursor_spot(
                    mode,
                    *cursor,
                    line_len,
                    old(self).scroll,
                    old(self).gutter_width as nat,
                )
            }),
    {
        let w = self.area.width;
        let h = self.area.height;
        let mut view = Viewport::new(w, h);
        assert(view.cells@ =~= Seq::new((w * h) as nat, |_i: int| blank_cell()));
        self.draw_sidebar(&mut view, total_lines, cursor.row, gutter_style);
        self.draw(&mut view, cells);
        let changes = if self.full_redraw || self.previous.width != w || self.previous.height != h {
            every_cell_of(&view)
        } else {
            view.diff(&self.previous)
        };
        proof {
            if self.full_redraw || self.previous.width != w || self.previous.height != h {
                assert forall|k: int| 0 <= k < changes@.len() implies (#[trigger] changes@[k]).row
                    < h && changes@[k].col < w by {
                    lemma_coords_in_area(k, w as int, h as int);
                    assert(k / (w as int) <= k) by (nonlinear_arith)
                        requires
                            w > 0,
                            0 <= k,
                    ;
                }
            } else {
                lemma_changes_in_area(
                    view.cells@,
                    self.previous.cells@,
                    w as nat,
                    h as nat,
                    view.cells@.len(),
                );
            }
        }
        let placed_changes = place(&changes, &self.area, default_style);
        let spot = self.cursor_position(mode, cursor, line_len);
        self.previous = view;
        self.full_redraw = false;
        Frame { changes: placed_changes, cursor: spot }
    }

    /// Writes the gutter labels at the start of each row, when the numbers
    /// of the gutter stay within `usize`; returns whether it did.
    pub fn draw_sidebar(
        &self,
        view: &mut Viewport,
        total_lines: usize,
        cursor_row: usize,
        style: &Style,
    ) -> (drawn: bool)
        requires
            old(view).wf(),
        ensures
            final(view).wf(),
            final(view).width == old(view).width,
            final(view).height == old(view).height,
            drawn == self.gutter.in_range(
                total_lines as nat,
                cursor_row as nat,
                self.scroll.row as nat,
                self.area.height as nat,
            ),
            drawn ==> final(view).cells@ == with_labels(
                old(view).cells@,
                old(view).width as nat,
                old(view).height as nat,
                self.gutter.labels(
                    total_lines as nat,
                    cursor_row as nat,
                    self.scroll.row as nat,
                    self.area.height as nat,
                ),
                *style,
                self.gutter.labels(
                    total_lines as nat,
                    cursor_row as nat,
                    self.scroll.row as nat,
                    self.area.height as nat,
                ).len() as int,
            ),
            !drawn ==> final(view).cells@ == old(view).cells@,
    {
        let height = self.area.height;
        let left = total_lines.saturating_sub(self.scroll.row);
        let count = if left < height {
            left
        } else {
            height
        };
        let fits = count <= usize::MAX - self.scroll.row && cursor_row < usize::MAX;
        let ok = match self.gutter {
            LineGutter::Relative(_) => fits,
            LineGutter::Absolute(_) => count <= usize::MAX - self.scroll.row,
            LineGutter::Noop(_) => true,
        };
        if !ok {
            return false;
        }
        let lines = self.gutter.get_lines(total_lines, cursor_row, self.scroll.row, height);
        let ghost labels = self.gutter.labels(
            total_lines as nat,
            cursor_row as nat,
            self.scroll.row as nat,
            height as nat,
        );
        let mut r: usize = 0;
        while r < lines.len()
            invariant
                lines@.len() == labels.len(),
                forall|i: int| 0 <= i < lines@.len() ==> #[trigger] lines@[i]@ == labels[i],
                r <= lines@.len(),
                view.wf(),
                view.width == old(view).width,
                view.height == old(view).height,
                view.cells@ == with_labels(
                    old(view).cells@,
                    old(view).width as nat,
                    old(view).height as nat,
                    labels,
                    *style,
                    r as int,
                ),
            decreases lines@.len() - r,
        {
            view.set_text(0, r, lines[r].as_str(), style);
            r = r + 1;
            proof {
                let prev = with_labels(
                    old(view).cells@,
                    old(view).width as nat,
                    old(view).height as nat,
                    labels,
                    *style,
                    r - 1,
                );
                assert(view.cells@ =~= Seq::new(
                    prev.len(),
                    |i: int|
                        text_cell(
                            prev,
                            old(view).width as int,
                            old(view).height as int,
                            0,
                            r - 1,
                            labels[r - 1],
                            *style,
                            i,
                        ),
                ));
            }
        }
        true
    }
}

proof fn lemma_apply_every(new: Seq<Cell>, g: Seq<Cell>, w: nat, k: nat)
    requires
        g.len() == new.len(),
        k <= new.len(),
        new.len() <= usize::MAX,
        w == 0 ==> new.len() == 0,
    ensures
        apply_changes(g, w, every_cell(new, w).take(k as int)) == Seq::new(
            g.len(),
            |j: int|
                if j < k {
                    new[j]
                } else {
                    g[j]
                },
        ),
    decreases k,
{
    let target = Seq::new(g.len(), |j: int| if j < k { new[j] } else { g[j] });
    if k == 0 {
        assert(every_cell(new, w).take(0).len() == 0);
        assert(g =~= target);
    } else {
        let i = k - 1;
        lemma_apply_every(new, g, w, i as nat);
        let cs = every_cell(new, w).take(k as int);
        assert(cs.drop_last() =~= every_cell(new, w).take(i));
        let c = cs.last();
        vstd::arithmetic::div_mod::lemma_fundamental_div_mod(i as int, w as int);
        vstd::arithmetic::div_mod::lemma_div_pos_is_pos(i as int, w as int);
        vstd::arithmetic::div_mod::lemma_mod_pos_bound(i as int, w as int);
        assert(i / (w as int) <= i) by (nonlinear_arith)
            requires
                i == (w as int) * (i / w as int) + i % (w as int),
                0 <= i % (w as int),
                0 <= i / (w as int),
                w >= 1,
        ;
        assert(index_of(w as int, c.col as int, c.row as int) == i) by (nonlinear_arith)
            requires
                i == (w as int) * (i / w as int) + i % (w as int),
                c.col as int == i % (w as int),
                c.row as int == i / (w as int),
        ;
        let prev = Seq::new(g.len(), |j: int| if j < i { new[j] } else { g[j] });
        assert(prev.update(i, new[i]) =~= target);
    }
}

/// Rendering cannot lose a cell: writing the changes of a render, at their
/// layer coordinates, onto the frame the terminal showed gives the new layer.
/// Without a full redraw pending and at an unchanged size, the terminal
/// showed the previous frame; otherwise any grid of the layer's size will do.
pub proof fn lemma_render_complete(
    new: Seq<Cell>,
    w: nat,
    h: nat,
    previous: Viewport,
    full_redraw: bool,
    shown: Seq<Cell>,
)
    requires
        new.len() == w * h,
        w * h <= usize::MAX,
        previous.wf(),
        shown.len() == new.len(),
        !full_redraw && previous.width == w && previous.height == h ==> shown
            == previous.cells@,
    ensures
        apply_changes(shown, w, layer_changes(new, w, h, previous, full_redraw)) == new,
{
    assert(w == 0 ==> w * h == 0) by (nonlinear_arith);
    if full_redraw || previous.width != w || previous.height != h {
        lemma_apply_every(new, shown, w, new.len());
        assert(every_cell(new, w).take(new.len() as int) =~= every_cell(new, w));
        assert(Seq::new(shown.len(), |j: int| if j < new.len() { new[j] } else { shown[j] })
            =~= new);
    } else {
        lemma_apply_prefix(new, shown, w, new.len());
        assert(Seq::new(shown.len(), |j: int| if j < new.len() { new[j] } else { shown[j] })
            =~= new);
    }
}

/// Rendering the same layer again, with no full redraw pending and at an
/// unchanged size, writes nothing.
pub proof fn lemma_render_unchanged(new: Seq<Cell>, w: nat, h: nat, previous: Viewport, area: Rect, default: Style)
    requires
        previous.wf(),
        previous.width == w,
        previous.height == h,
        new == previous.cells@,
    ensures
        placed(layer_changes(new, w, h, previous, false), area, default).len() == 0,
{
    lemma_changes_same(new, w, new.len());
}

} // verus!
