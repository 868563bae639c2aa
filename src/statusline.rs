use vstd::prelude::*;

use crate::editor::{mode_label, Cell, Mode, Position, Rect};
use crate::style::{resolved, Style};
use crate::text::{decimal, push_char, push_decimal, push_spaces};
use crate::viewport::{text_cell, ChangedCell, Viewport};

verus! {

/// What the status line shows: the mode, the cursor's position (1-indexed
/// row), the file and its number of lines.
#[derive(Debug)]
pub struct StatuslineUpdate {
    pub mode: Mode,
    pub cursor_pos: Position,
    pub file_name: String,
    pub lines: usize,
}

impl StatuslineUpdate {
    pub fn new(mode: Mode, cursor_pos: Position, file_name: String, lines: usize) -> (r:
        StatuslineUpdate)
        ensures
            r.mode == mode,
            r.cursor_pos == cursor_pos,
            r.file_name@ == file_name@,
            r.lines == lines,
    {
        StatuslineUpdate { mode, cursor_pos, file_name, lines }
    }
}

/// The part of a path after its last `/`.
pub open spec fn base_name(path: Seq<char>) -> Seq<char>
    decreases path.len(),
{
    if path.len() == 0 {
        path
    } else if path.last() == '/' {
        Seq::empty()
    } else {
        base_name(path.drop_last()).push(path.last())
    }
}

/// Where the cursor is in the file: `TOP ` on the first line, `BOT ` on
/// the last (or in an empty file), else the percentage, rounded down.
pub open spec fn position_label(row: nat, lines: nat) -> Seq<char> {
    if row == 1 {
        "TOP "@
    } else if row == lines || lines == 0 {
        "BOT "@
    } else {
        decimal(row * 100 / lines) + "% "@
    }
}

/// The status line: mode and file name on the left; position in the file
/// and `row:col` on the right, with spaces between.
pub open spec fn status_text(u: StatuslineUpdate, width: nat) -> Seq<char> {
    let left = seq![' '] + mode_label(u.mode) + seq![' '] + base_name(u.file_name@);
    let right = position_label(u.cursor_pos.row as nat, u.lines as nat) + decimal(
        u.cursor_pos.row as nat,
    ) + seq![':'] + decimal(u.cursor_pos.col as nat) + seq![' '];
    let pad = width - left.len() - right.len();
    left + Seq::new(if pad > 0 { pad as nat } else { 0 }, |_i: int| ' ') + right
}

fn push_str(s: &mut String, t: &str)
    ensures
        final(s)@ == old(s)@ + t@,
{
    s.append(t);
}

fn base_name_of(path: &String) -> (r: String)
    ensures
        r@ == base_name(path@),
{
    let p = path.as_str();
    let n = p.unicode_len();
    let mut start: usize = 0;
    let mut i: usize = 0;
    while i < n
        invariant
            n == path@.len(),
            p@ == path@,
            i <= n,
            start <= i,
            base_name(path@.take(i as int)) == path@.subrange(start as int, i as int),
        decreases n - i,
    {
        let c = p.get_char(i);
        assert(path@.take(i as int + 1).drop_last() =~= path@.take(i as int));
        if c == '/' {
            start = i + 1;
        }
        i = i + 1;
        assert(path@.subrange(start as int, i as int) =~= if c == '/' {
            Seq::empty()
        } else {
            path@.subrange(start as int, i as int - 1).push(c)
        });
    }
    assert(path@.take(n as int) =~= path@);
    let mut out = String::new();
    push_str(&mut out, p.substring_char(start, n));
    assert(out@ =~= base_name(path@));
    out
}

fn position_string(row: usize, lines: usize) -> (r: String)
    ensures
        r@ == position_label(row as nat, lines as nat),
{
    if row == 1 {
        String::from_str("TOP ")
    } else if row == lines || lines == 0 {
        String::from_str("BOT ")
    } else {
        let p: u128 = (row as u128) * 100 / (lines as u128);
        assert(p as nat == (row as nat) * 100 / (lines as nat));
        let mut s = String::new();
        push_decimal_wide(&mut s, p);
        push_str(&mut s, "% ");
        s
    }
}

fn push_decimal_wide(s: &mut String, n: u128)
    ensures
        final(s)@ == old(s)@ + decimal(n as nat),
    decreases n,
{
    if n < 10 {
        push_decimal(s, n as usize);
    } else {
        push_decimal_wide(s, n / 10);
        push_decimal(s, (n % 10) as usize);
        assert(decimal((n % 10) as nat) == seq![crate::text::digit_char((n % 10) as nat)]);
        assert(old(s)@ + decimal((n / 10) as nat) + decimal((n % 10) as nat) =~= old(s)@ + decimal(
            n as nat,
        ));
    }
}

/// The status line text for `update` in a line `width` columns wide.
pub fn status_line(update: &StatuslineUpdate, width: usize) -> (r: String)
    ensures
        r@ == status_text(*update, width as nat),
{
    let mut left = String::new();
    push_char(&mut left, ' ');
    push_str(&mut left, update.mode.label());
    push_char(&mut left, ' ');
    let name = base_name_of(&update.file_name);
    push_str(&mut left, name.as_str());

    let mut right = position_string(update.cursor_pos.row, update.lines);
    push_decimal(&mut right, update.cursor_pos.row);
    push_char(&mut right, ':');
    push_decimal(&mut right, update.cursor_pos.col);
    push_char(&mut right, ' ');

    let l = left.as_str().unicode_len();
    let r = right.as_str().unicode_len();
    let mut line = left;
    if l < width && r < width - l {
        push_spaces(&mut line, width - l - r);
    }
    push_str(&mut line, right.as_str());
    assert(line@ =~= status_text(*update, width as nat));
    line
}

/// The status line at the bottom of the terminal.
#[derive(Debug)]
pub struct TuiStatusline {
    pub area: Rect,
    pub view: Viewport,
}

impl TuiStatusline {
    pub open spec fn wf(&self) -> bool {
        &&& self.view.wf()
        &&& self.view.width == self.area.width
        &&& self.view.height == 1
    }

    /// A status line one row high across `area`.
    pub fn new(area: Rect) -> (r: TuiStatusline)
        ensures
            r.wf(),
            r.area == area,
    {
        TuiStatusline { area, view: Viewport::new(area.width, 1) }
    }

    /// Writes the status text into the line's row, clipped at its width.
    pub fn draw(&mut self, update: &StatuslineUpdate, style: &Style)
        requires
            old(self).wf(),
        ensures
            final(self).wf(),
            final(self).area == old(self).area,
            forall|i: int|
                0 <= i < final(self).view.cells@.len() ==> #[trigger] final(self).view.cells@[i]
                    == text_cell(
                    old(self).view.cells@,
                    old(self).area.width as int,
                    1,
                    0,
                    0,
                    status_text(*update, old(self).area.width as nat),
                    *style,
                    i,
                ),
    {
        let text = status_line(update, self.area.width);
        self.view.set_text(0, 0, text.as_str(), style);
    }

    /// Draws the line and hands back every cell, on the terminal row of the
    /// line, with styles resolved against the theme default.
    pub fn render(&mut self, update: &StatuslineUpdate, style: &Style, default: &Style) -> (r: Vec<
        ChangedCell,
    >)
        requires
            old(self).wf(),
        ensures
            final(self).wf(),
            final(self).area == old(self).area,
            r@.len() == final(self).view.cells@.len(),
            forall|x: int|
                0 <= x < r@.len() ==> #[trigger] r@[x] == (ChangedCell {
                    row: old(self).area.row,
                    col: x as usize,
                    cell: Cell {
                        c: final(self).view.cells@[x].c,
                        style: resolved(final(self).view.cells@[x].style, *default),
                    },
                }),
    {
        self.draw(update, style);
        let mut out: Vec<ChangedCell> = Vec::new();
        let mut x: usize = 0;
        while x < self.view.cells.len()
            invariant
                x <= self.view.cells@.len(),
                out@.len() == x,
                forall|k: int|
                    0 <= k < x ==> #[trigger] out@[k] == (ChangedCell {
                        row: self.area.row,
                        col: k as usize,
                        cell: Cell {
                            c: self.view.cells@[k].c,
                            style: resolved(self.view.cells@[k].style, *default),
                        },
                    }),
            decreases self.view.cells@.len() - x,
        {
            let cell = self.view.cells[x];
            out.push(
                ChangedCell {
                    row: self.area.row,
                    col: x,
                    cell: Cell { c: cell.c, style: cell.style.resolve(default) },
                },
            );
            x = x + 1;
        }
        out
    }
}

} // verus!
