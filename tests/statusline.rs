use glyph::editor::{Mode, Position, Rect};
use glyph::statusline::{status_line, StatuslineUpdate, TuiStatusline};
use glyph::style::{Color, Style};

fn update(mode: Mode, row: usize, col: usize, name: &str, lines: usize) -> StatuslineUpdate {
    StatuslineUpdate::new(mode, Position { row, col }, name.to_string(), lines)
}

#[test]
fn status_line_top_of_file() {
    let line = status_line(&update(Mode::Normal, 1, 1, "src/main.rs", 10), 40);
    assert_eq!(line, format!(" NORMAL main.rs{}TOP 1:1 ", " ".repeat(17)));
    assert_eq!(line.chars().count(), 40);
}

#[test]
fn status_line_percentage_and_bottom() {
    assert_eq!(status_line(&update(Mode::Insert, 5, 3, "a", 10), 20), " INSERT a   50% 5:3 ");
    assert_eq!(status_line(&update(Mode::Insert, 29, 0, "a", 100), 0), " INSERT a29% 29:0 ");
    assert_eq!(status_line(&update(Mode::Command, 7, 2, "/tmp/x/", 7), 0), " COMMAND BOT 7:2 ");
}

#[test]
fn statusline_render_resolves_styles() {
    let mut s = TuiStatusline::new(Rect::new(0, 23, 12, 1));
    let inner = Style { fg: None, bg: Some(Color::Blue), bold: false, italic: false, underline: false };
    let theme = Style { fg: Some(Color::White), bg: Some(Color::Black), bold: false, italic: false, underline: false };
    let cells = s.render(&update(Mode::Normal, 1, 1, "f", 3), &inner, &theme);
    assert_eq!(cells.len(), 12);
    let text: String = cells.iter().map(|c| c.cell.c).collect();
    assert_eq!(text, " NORMAL fTOP");
    assert!(cells.iter().all(|c| c.row == 23 && c.cell.style.bg == Some(Color::Blue) && c.cell.style.fg == Some(Color::White)));
    assert_eq!(cells[3].col, 3);
}
