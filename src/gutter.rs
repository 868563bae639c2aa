use vstd::prelude::*;

use crate::config::LineNumbers;
use crate::text::{decimal, lemma_decimal_len_bound, push_char, push_decimal, push_spaces};

verus! {

/// `k` spaces.
pub open spec fn spaces(k: int) -> Seq<char> {
    Seq::new(if k > 0 { k as nat } else { 0 }, |_i: int| ' ')
}

/// A number right-aligned in a gutter of width `offset`, followed by one
/// separator space. A numeral wider than the gutter is not padded.
pub open spec fn number_label(n: nat, offset: nat) -> Seq<char> {
    spaces(offset - 1 - decimal(n).len()) + decimal(n) + seq![' ']
}

/// The label of a row past the end of the buffer: the filler glyph in the
/// last column of the gutter, then the separator space.
pub open spec fn filler_label(c: char, offset: nat) -> Seq<char> {
    spaces(offset - 2) + seq![c, ' ']
}

/// The number of rows that show a line of the buffer: row `i` shows line
/// `scroll + i + 1` (1-indexed) when the buffer has that line.
pub open spec fn shown(total_lines: nat, scroll: nat, height: nat) -> nat {
    let left = if total_lines >= scroll {
        (total_lines - scroll) as nat
    } else {
        0
    };
    if left < height {
        left
    } else {
        height
    }
}

/// The relative label value of the row that shows line `row` (1-indexed)
/// when the cursor is on line `line` (0-indexed).
pub open spec fn relative_value(row: nat, line: nat, numbered: bool) -> nat {
    if numbered && row == line + 1 {
        row
    } else if row >= line + 1 {
        (row - (line + 1)) as nat
    } else {
        (line + 1 - row) as nat
    }
}

/// Produces one label per visible row of the line-number gutter.
pub trait Gutter {
    /// The labels for a window of `height` rows scrolled to `scroll`, over a
    /// buffer of `total_lines` lines with the cursor on `line`.
    spec fn labels(&self, total_lines: nat, line: nat, scroll: nat, height: nat) -> Seq<Seq<char>>;

    /// What the numbers need to stay within `usize`.
    spec fn in_range(&self, total_lines: nat, line: nat, scroll: nat, height: nat) -> bool;

    fn get_lines(&self, total_lines: usize, line: usize, scroll: usize, height: usize) -> (r: Vec<
        String,
    >)
        requires
            self.in_range(total_lines as nat, line as nat, scroll as nat, height as nat),
        ensures
            r@.len() == self.labels(
                total_lines as nat,
                line as nat,
                scroll as nat,
                height as nat,
            ).len(),
            forall|i: int|
                0 <= i < r@.len() ==> #[trigger] r@[i]@ == self.labels(
                    total_lines as nat,
                    line as nat,
                    scroll as nat,
                    height as nat,
                )[i],
    ;
}

/// Absolute line numbers.
#[derive(Clone, Copy, Debug)]
pub struct AbsoluteLineGutter {
    pub empty_line_char: char,
    pub offset: usize,
}

/// Distances to the cursor's line; with `RelativeNumbered`, the cursor's own
/// line shows its absolute number.
#[derive(Clone, Copy, Debug)]
pub struct RelativeLineGutter {
    pub empty_line_char: char,
    pub offset: usize,
    pub line_numbers: LineNumbers,
}

/// No gutter at all.
#[derive(Clone, Copy, Debug)]
pub struct NoopLineGutter {}

impl AbsoluteLineGutter {
    pub fn new(empty_line_char: char, offset: usize) -> (r: AbsoluteLineGutter)
        ensures
            r.empty_line_char == empty_line_char,
            r.offset == offset,
    {
        AbsoluteLineGutter { empty_line_char, offset }
    }
}

impl RelativeLineGutter {
    pub fn new(empty_line_char: char, offset: usize, line_numbers: LineNumbers) -> (r:
        RelativeLineGutter)
        ensures
            r.empty_line_char == empty_line_char,
            r.offset == offset,
            r.line_numbers == line_numbers,
    {
        RelativeLineGutter { empty_line_char, offset, line_numbers }
    }
}

impl Default for NoopLineGutter {
    fn default() -> (r: NoopLineGutter) {
        NoopLineGutter {  }
    }
}

fn make_number_label(n: usize, offset: usize) -> (r: String)
    ensures
        r@ == number_label(n as nat, offset as nat),
{
    let mut s = String::new();
    let k = crate::text::decimal_len(n);
    if offset > k && offset - k > 1 {
        push_spaces(&mut s, offset - 1 - k);
    }
    push_decimal(&mut s, n);
    push_char(&mut s, ' ');
    assert(s@ =~= number_label(n as nat, offset as nat));
    s
}

fn make_filler_label(c: char, offset: usize) -> (r: String)
    ensures
        r@ == filler_label(c, offset as nat),
{
    let mut s = String::new();
    if offset > 2 {
        push_spaces(&mut s, offset - 2);
    }
    push_char(&mut s, c);
    push_char(&mut s, ' ');
    assert(s@ =~= filler_label(c, offset as nat));
    s
}

impl Gutter for AbsoluteLineGutter {
    open spec fn labels(&self, total_lines: nat, line: nat, scroll: nat, height: nat) -> Seq<
        Seq<char>,
    > {
        Seq::new(
            height,
            |i: int|
                if i < shown(total_lines, scroll, height) {
                    number_label((scroll + i + 1) as nat, self.offset as nat)
                } else {
                    filler_label(self.empty_line_char, self.offset as nat)
                },
        )
    }

    open spec fn in_range(&self, total_lines: nat, line: nat, scroll: nat, height: nat) -> bool {
        scroll + shown(total_lines, scroll, height) <= usize::MAX
    }

    fn get_lines(&self, total_lines: usize, line: usize, scroll: usize, height: usize) -> (r: Vec<
        String,
    >) {
        let left = total_lines.saturating_sub(scroll);
        let count = if left < height {
            left
        } else {
            height
        };
        let ghost want = self.labels(total_lines as nat, line as nat, scroll as nat, height as nat);
        let mut lines: Vec<String> = Vec::new();
        let mut i: usize = 0;
        while i < height
            invariant
                count == shown(total_lines as nat, scroll as nat, height as nat),
                scroll + count <= usize::MAX,
                want == self.labels(total_lines as nat, line as nat, scroll as nat, height as nat),
                i <= height,
                lines@.len() == i,
                forall|j: int| 0 <= j < i ==> #[trigger] lines@[j]@ == want[j],
            decreases height - i,
        {
            if i < count {
                lines.push(make_number_label(scroll + i + 1, self.offset));
            } else {
                lines.push(make_filler_label(self.empty_line_char, self.offset));
            }
            i = i + 1;
        }
        lines
    }
}

impl Gutter for RelativeLineGutter {
    open spec fn labels(&self, total_lines: nat, line: nat, scroll: nat, height: nat) -> Seq<
        Seq<char>,
    > {
        Seq::new(
            height,
            |i: int|
                if i < shown(total_lines, scroll, height) {
                    number_label(
                        relative_value(
                            (scroll + i + 1) as nat,
                            line,
                            self.line_numbers == LineNumbers::RelativeNumbered,
                        ),
                        self.offset as nat,
                    )
                } else {
                    filler_label(self.empty_line_char, self.offset as nat)
                },
        )
    }

    open spec fn in_range(&self, total_lines: nat, line: nat, scroll: nat, height: nat) -> bool {
        &&& scroll + shown(total_lines, scroll, height) <= usize::MAX
        &&& line < usize::MAX
    }

    fn get_lines(&self, total_lines: usize, line: usize, scroll: usize, height: usize) -> (r: Vec<
        String,
    >) {
        let left = total_lines.saturating_sub(scroll);
        let count = if left < height {
            left
        } else {
            height
        };
        let numbered = match self.line_numbers {
            LineNumbers::RelativeNumbered => true,
            _ => false,
        };
        let normalized_line = line + 1;
        let ghost want = self.labels(total_lines as nat, line as nat, scroll as nat, height as nat);
        let mut lines: Vec<String> = Vec::new();
        let mut i: usize = 0;
        while i < height
            invariant
                count == shown(total_lines as nat, scroll as nat, height as nat),
                scroll + count <= usize::MAX,
                normalized_line == line + 1,
                numbered == (self.line_numbers == LineNumbers::RelativeNumbered),
                want == self.labels(total_lines as nat, line as nat, scroll as nat, height as nat),
                i <= height,
                lines@.len() == i,
                forall|j: int| 0 <= j < i ==> #[trigger] lines@[j]@ == want[j],
            decreases height - i,
        {
            if i < count {
                let row = scroll + i + 1;
                let value = if numbered && row == normalized_line {
                    row
                } else if row >= normalized_line {
                    row - normalized_line
                } else {
                    normalized_line - row
                };
                lines.push(make_number_label(value, self.offset));
            } else {
                lines.push(make_filler_label(self.empty_line_char, self.offset));
            }
            i = i + 1;
        }
        lines
    }
}

impl Gutter for NoopLineGutter {
    open spec fn labels(&self, total_lines: nat, line: nat, scroll: nat, height: nat) -> Seq<
        Seq<char>,
    > {
        Seq::empty()
    }

    open spec fn in_range(&self, total_lines: nat, line: nat, scroll: nat, height: nat) -> bool {
        true
    }

    fn get_lines(&self, total_lines: usize, line: usize, scroll: usize, height: usize) -> (r: Vec<
        String,
    >) {
        Vec::new()
    }
}

/// The gutter a window uses, picked once from the configuration.
#[derive(Clone, Copy, Debug)]
pub enum LineGutter {
    Absolute(AbsoluteLineGutter),
    Relative(RelativeLineGutter),
    Noop(NoopLineGutter),
}

/// The gutter for a line-number setting.
pub open spec fn gutter_for(line_numbers: LineNumbers, empty_line_char: char, gutter_width: usize) -> LineGutter {
    match line_numbers {
        LineNumbers::Absolute => LineGutter::Absolute(
            AbsoluteLineGutter { empty_line_char, offset: gutter_width },
        ),
        LineNumbers::Off => LineGutter::Noop(NoopLineGutter {  }),
        _ => LineGutter::Relative(
            RelativeLineGutter { empty_line_char, offset: gutter_width, line_numbers },
        ),
    }
}

impl LineGutter {
    /// The gutter for a line-number setting.
    pub fn from_config(line_numbers: LineNumbers, empty_line_char: char, gutter_width: usize) -> (r:
        LineGutter)
        ensures
            r == gutter_for(line_numbers, empty_line_char, gutter_width),
    {
        match line_numbers {
            LineNumbers::Absolute => LineGutter::Absolute(
                AbsoluteLineGutter::new(empty_line_char, gutter_width),
            ),
            LineNumbers::Relative => LineGutter::Relative(
                RelativeLineGutter::new(empty_line_char, gutter_width, line_numbers),
            ),
            LineNumbers::RelativeNumbered => LineGutter::Relative(
                RelativeLineGutter::new(empty_line_char, gutter_width, line_numbers),
            ),
            LineNumbers::Off => LineGutter::Noop(NoopLineGutter {  }),
        }
    }
}

impl Gutter for LineGutter {
    open spec fn labels(&self, total_lines: nat, line: nat, scroll: nat, height: nat) -> Seq<
        Seq<char>,
    > {
        match self {
            LineGutter::Absolute(g) => g.labels(total_lines, line, scroll, height),
            LineGutter::Relative(g) => g.labels(total_lines, line, scroll, height),
            LineGutter::Noop(g) => g.labels(total_lines, line, scroll, height),
        }
    }

    open spec fn in_range(&self, total_lines: nat, line: nat, scroll: nat, height: nat) -> bool {
        match self {
            LineGutter::Absolute(g) => g.in_range(total_lines, line, scroll, height),
            LineGutter::Relative(g) => g.in_range(total_lines, line, scroll, height),
            LineGutter::Noop(g) => g.in_range(total_lines, line, scroll, height),
        }
    }

    fn get_lines(&self, total_lines: usize, line: usize, scroll: usize, height: usize) -> (r: Vec<
        String,
    >) {
        match self {
            LineGutter::Absolute(g) => g.get_lines(total_lines, line, scroll, height),
            LineGutter::Relative(g) => g.get_lines(total_lines, line, scroll, height),
            LineGutter::Noop(g) => g.get_lines(total_lines, line, scroll, height),
        }
    }
}

/// Every number label is as wide as the gutter once the numeral fits in it.
proof fn lemma_number_label_len(n: nat, offset: nat)
    requires
        decimal(n).len() < offset,
    ensures
        number_label(n, offset).len() == offset,
{
}

/// A numbering gutter gives exactly one label per row, all of the gutter's
/// width, whenever each label's number fits in the gutter (the gutter is at
/// least two columns wide and no numeral is wider than the gutter less its
/// separator).
pub proof fn lemma_gutter_shape(g: LineGutter, total_lines: nat, line: nat, scroll: nat, height: nat)
    requires
        !(g is Noop),
        label_fits(g, total_lines, line, scroll, height),
    ensures
        g.labels(total_lines, line, scroll, height).len() == height,
        forall|i: int|
            0 <= i < height ==> (#[trigger] g.labels(total_lines, line, scroll, height)[i]).len()
                == gutter_width(g),
{
    assert forall|i: int| 0 <= i < height implies (#[trigger] g.labels(
        total_lines,
        line,
        scroll,
        height,
    )[i]).len() == gutter_width(g) by {
        if i < shown(total_lines, scroll, height) {
            assert(decimal(row_value(g, line, scroll, i)).len() < gutter_width(g));
            match g {
                LineGutter::Absolute(a) => {
                    lemma_number_label_len((scroll + i + 1) as nat, a.offset as nat);
                },
                LineGutter::Relative(r) => {
                    lemma_number_label_len(
                        relative_value(
                            (scroll + i + 1) as nat,
                            line,
                            r.line_numbers == LineNumbers::RelativeNumbered,
                        ),
                        r.offset as nat,
                    );
                },
                LineGutter::Noop(_) => {},
            }
        } else {
            lemma_decimal_len_bound(0);
        }
    }
}

/// The width of a gutter's labels.
pub open spec fn gutter_width(g: LineGutter) -> nat {
    match g {
        LineGutter::Absolute(a) => a.offset as nat,
        LineGutter::Relative(r) => r.offset as nat,
        LineGutter::Noop(_) => 0,
    }
}

/// The value written on row `i` of a numbering gutter.
pub open spec fn row_value(g: LineGutter, line: nat, scroll: nat, i: int) -> nat {
    match g {
        LineGutter::Absolute(_) => (scroll + i + 1) as nat,
        LineGutter::Relative(r) => relative_value(
            (scroll + i + 1) as nat,
            line,
            r.line_numbers == LineNumbers::RelativeNumbered,
        ),
        LineGutter::Noop(_) => 0,
    }
}

/// Each shown number fits in the gutter, and the gutter has room for the
/// filler glyph and its separator.
pub open spec fn label_fits(g: LineGutter, total_lines: nat, line: nat, scroll: nat, height: nat) -> bool {
    &&& gutter_width(g) >= 2
    &&& forall|i: int|
        0 <= i < shown(total_lines, scroll, height) ==> decimal(#[trigger] row_value(g, line, scroll, i)).len()
            < gutter_width(g)
}

/// In a relative-numbered gutter, the row of the cursor's line shows that
/// line's absolute number and every other shown row its distance to it.
pub proof fn lemma_relative_numbered_rows(
    g: RelativeLineGutter,
    total_lines: nat,
    line: nat,
    scroll: nat,
    height: nat,
    i: int,
)
    requires
        g.line_numbers == LineNumbers::RelativeNumbered,
        0 <= i < shown(total_lines, scroll, height),
    ensures
        scroll + i + 1 == line + 1 ==> g.labels(total_lines, line, scroll, height)[i] == number_label(
            line + 1,
            g.offset as nat,
        ),
        scroll + i + 1 != line + 1 ==> g.labels(total_lines, line, scroll, height)[i] == number_label(
            if scroll + i + 1 > line + 1 {
                (scroll + i - line) as nat
            } else {
                (line - scroll - i) as nat
            },
            g.offset as nat,
        ),
{
}

} // verus!
