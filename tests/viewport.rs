use glyph::editor::Cell;
use glyph::highlight::{get_highlight, Span};
use glyph::style::{Color, Style};
use glyph::viewport::{ChangedCell, Viewport};

fn red() -> Style {
    Style { fg: Some(Color::Red), bg: None, bold: false, italic: false, underline: false }
}

#[test]
fn new_viewport_is_blank() {
    let v = Viewport::new(3, 2);
    assert_eq!(v.cells.len(), 6);
    assert!(v.cells.iter().all(|c| *c == Cell::default()));
    assert_eq!(Cell::default().c, ' ');
}

#[test]
fn diff_with_itself_is_empty() {
    let mut v = Viewport::new(4, 3);
    v.set_text(0, 1, "abc", &red());
    assert!(v.diff(&v).is_empty());
}

#[test]
fn set_cell_out_of_bounds_is_ignored() {
    let mut v = Viewport::new(2, 2);
    v.set_cell(2, 0, 'x', &red());
    v.set_cell(0, 2, 'x', &red());
    assert!(v.diff(&Viewport::new(2, 2)).is_empty());
}

#[test]
fn set_text_clips_at_right_edge() {
    let mut v = Viewport::new(4, 2);
    v.set_text(2, 1, "hello", &red());
    let chars: Vec<char> = v.cells.iter().map(|c| c.c).collect();
    assert_eq!(chars, vec![' ', ' ', ' ', ' ', ' ', ' ', 'h', 'e']);
    assert_eq!(v.cells[6].style, red());
}

#[test]
fn diff_lists_changes_in_row_major_order() {
    let old = Viewport::new(3, 2);
    let mut new = Viewport::new(3, 2);
    new.set_cell(1, 1, 'b', &Style::plain());
    new.set_cell(2, 0, 'a', &Style::plain());
    new.set_cell(0, 1, ' ', &red());
    let changes = new.diff(&old);
    assert_eq!(
        changes,
        vec![
            ChangedCell { row: 0, col: 2, cell: Cell { c: 'a', style: Style::plain() } },
            ChangedCell { row: 1, col: 0, cell: Cell { c: ' ', style: red() } },
            ChangedCell { row: 1, col: 1, cell: Cell { c: 'b', style: Style::plain() } },
        ]
    );
}

#[test]
fn applying_diff_reproduces_new_frame() {
    let mut a = Viewport::new(5, 3);
    a.set_text(0, 0, "hello", &Style::plain());
    a.set_text(0, 2, "xy", &red());
    let mut b = Viewport::new(5, 3);
    b.set_text(0, 0, "help", &Style::plain());
    b.set_text(1, 1, "abc", &red());
    let changes = b.diff(&a);
    let mut copy = a.clone();
    for ch in &changes {
        copy.set_cell(ch.col, ch.row, ch.cell.c, &ch.cell.style);
    }
    assert_eq!(copy.cells, b.cells);
    assert!(changes.len() < 15);
}

#[test]
fn style_resolution_prefers_own_colors() {
    let theme = Style { fg: Some(Color::White), bg: Some(Color::Black), bold: false, italic: false, underline: false };
    let r = red().resolve(&theme);
    assert_eq!(r.fg, Some(Color::Red));
    assert_eq!(r.bg, Some(Color::Black));
}

#[test]
fn highlight_styles_by_byte_offset() {
    let blue = Style { fg: Some(Color::Blue), bg: None, bold: true, italic: false, underline: false };
    let spans = vec![Span { start: 0, end: 1, style: red() }, Span { start: 1, end: 3, style: blue }, Span { start: 0, end: 10, style: Style::plain() }];
    let theme = Style { fg: Some(Color::White), bg: None, bold: false, italic: false, underline: false };
    let cells = get_highlight("a\u{e9}\nb", &spans[0..2], &theme);
    assert_eq!(cells.len(), 4);
    assert_eq!(cells[0], Cell { c: 'a', style: red() });
    assert_eq!(cells[1], Cell { c: '\u{e9}', style: blue });
    assert_eq!(cells[2], Cell { c: '\n', style: theme });
    assert_eq!(cells[3], Cell { c: 'b', style: theme });
    let first_wins = get_highlight("ab", &spans, &theme);
    assert_eq!(first_wins[1].style, blue);
}
