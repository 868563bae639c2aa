use vstd::prelude::*;

use crate::editor::Cell;
use crate::style::Style;

verus! {

/// A colored byte range `[start, end)` of a text, as the highlighter gives
/// it.
#[derive(Clone, Copy, Debug, PartialEq, Eq, Structural)]
pub struct Span {
    pub start: usize,
    pub end: usize,
    pub style: Style,
}

/// The number of bytes of a character in UTF-8.
pub open spec fn utf8_len(c: char) -> nat {
    if (c as u32) < 0x80 {
        1
    } else if (c as u32) < 0x800 {
        2
    } else if (c as u32) < 0x10000 {
        3
    } else {
        4
    }
}

/// The byte offset of the `k`-th character of `t`.
pub open spec fn byte_offset(t: Seq<char>, k: int) -> nat
    decreases k,
{
    if k <= 0 {
        0
    } else {
        byte_offset(t, k - 1) + utf8_len(t[k - 1])
    }
}

/// The style of the first span that covers byte `b`, or `default`.
pub open spec fn style_at(spans: Seq<Span>, b: nat, default: Style) -> Style
    decreases spans.len(),
{
    if spans.len() == 0 {
        default
    } else if spans[0].start <= b < spans[0].end {
        spans[0].style
    } else {
        style_at(spans.drop_first(), b, default)
    }
}

/// Relies on `str::chars`: the characters of the text, in order.
#[verifier::external_body]
fn chars_of(text: &str) -> (r: Vec<char>)
    ensures
        r@ == text@,
{
    text.chars().collect()
}

fn char_at(chars: &Vec<char>, i: usize) -> (c: char)
    requires
        i < chars@.len(),
    ensures
        c == chars@[i as int],
{
    chars[i]
}

fn char_len(c: char) -> (r: usize)
    ensures
        r == utf8_len(c),
{
    let v = c as u32;
    if v < 0x80 {
        1
    } else if v < 0x800 {
        2
    } else if v < 0x10000 {
        3
    } else {
        4
    }
}

fn find_style(spans: &[Span], b: usize, default: &Style) -> (r: Style)
    ensures
        r == style_at(spans@, b as nat, *default),
{
    let mut i: usize = 0;
    assert(spans@.skip(0) =~= spans@);
    while i < spans.len()
        invariant
            i <= spans@.len(),
            style_at(spans@, b as nat, *default) == style_at(spans@.skip(i as int), b as nat, *default),
        decreases spans@.len() - i,
    {
        let s = spans[i];
        if s.start <= b && b < s.end {
            assert(spans@.skip(i as int)[0] == s);
            return s.style;
        }
        assert(spans@.skip(i as int).drop_first() =~= spans@.skip(i as int + 1));
        i = i + 1;
    }
    *default
}

/// The cells of a text: each character with the style of the first span
/// that covers its first byte, or the theme's default style.
pub fn get_highlight(text: &str, spans: &[Span], default: &Style) -> (r: Vec<Cell>)
    requires
        4 * text@.len() <= usize::MAX,
    ensures
        r@.len() == text@.len(),
        forall|k: int|
            0 <= k < r@.len() ==> #[trigger] r@[k] == (Cell {
                c: text@[k],
                style: style_at(spans@, byte_offset(text@, k), *default),
            }),
{
    let chars = chars_of(text);
    let mut out: Vec<Cell> = Vec::new();
    let mut byte: usize = 0;
    let mut i: usize = 0;
    while i < chars.len()
        invariant
            chars@ == text@,
            4 * chars@.len() <= usize::MAX,
            i <= chars@.len(),
            byte == byte_offset(text@, i as int),
            byte <= 4 * i,
            out@.len() == i,
            forall|j: int|
                0 <= j < i ==> #[trigger] out@[j] == (Cell {
                    c: text@[j],
                    style: style_at(spans@, byte_offset(text@, j), *default),
                }),
        decreases chars@.len() - i,
    {
        let c = char_at(&chars, i);
        let style = find_style(spans, byte, default);
        out.push(Cell { c, style });
        let n = char_len(c);
        byte = byte + n;
        i = i + 1;
    }
    out
}

} // verus!
