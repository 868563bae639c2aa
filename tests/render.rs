use glyph::config::{Config, EditorBackground, Keys, LineNumbers};
use glyph::editor::{Action, Binding, Cell, KeyAction, KeyMap, Mode, Position, Rect, Size};
use glyph::event_handler::{Event, KeyCode, KeyEvent, Modifiers};
use glyph::scroll::scroll_for;
use glyph::session::{CursorShape, Effect, Session, Tab};
use glyph::style::{Color, Style};
use glyph::view::TuiView;

fn config(line_numbers: LineNumbers, gutter_width: usize) -> Config {
    Config {
        keys: Keys::empty(),
        theme: String::new(),
        log_file: None,
        mouse_scroll_lines: None,
        gutter_width,
        line_numbers,
        background: EditorBackground::Dark,
        empty_line_char: '~',
        show_diagnostics: true,
    }
}

fn cells(text: &str) -> Vec<Cell> {
    text.chars().map(|c| Cell { c, style: Style::plain() }).collect()
}

fn theme() -> Style {
    Style { fg: Some(Color::White), bg: Some(Color::Black), bold: false, italic: false, underline: false }
}

#[test]
fn test_resizing() {
    let mut tab = Tab::new(1);
    tab.resize(Rect { row: 0, col: 0, height: 0, width: 0 }, &Mode::Normal);
    assert_eq!(tab.id, 1);
}

#[test]
fn scroll_down_puts_cursor_on_last_row() {
    let area = Rect::new(0, 0, 10, 5);
    let s = scroll_for(&Position { row: 9, col: 0 }, &area, &Position { row: 0, col: 0 });
    assert_eq!(s, Position { row: 5, col: 0 });
}

#[test]
fn scroll_up_puts_cursor_on_first_row() {
    let area = Rect::new(0, 0, 10, 5);
    let s = scroll_for(&Position { row: 2, col: 0 }, &area, &Position { row: 7, col: 0 });
    assert_eq!(s, Position { row: 2, col: 0 });
}

#[test]
fn scroll_corrects_one_axis_per_call() {
    let area = Rect::new(0, 0, 10, 5);
    let cursor = Position { row: 1, col: 30 };
    let s1 = scroll_for(&cursor, &area, &Position { row: 4, col: 0 });
    assert_eq!(s1, Position { row: 1, col: 0 });
    let s2 = scroll_for(&cursor, &area, &s1);
    assert_eq!(s2, Position { row: 1, col: 21 });
    let s3 = scroll_for(&cursor, &area, &s2);
    assert_eq!(s3, s2);
    let left = scroll_for(&Position { row: 2, col: 3 }, &area, &Position { row: 1, col: 21 });
    assert_eq!(left, Position { row: 1, col: 3 });
}

#[test]
fn scroll_on_last_row_never_fixes_column() {
    let area = Rect::new(0, 0, 10, 3);
    let cursor = Position { row: 5, col: 20 };
    let s1 = scroll_for(&cursor, &area, &Position { row: 0, col: 0 });
    assert_eq!(s1, Position { row: 3, col: 0 });
    let s2 = scroll_for(&cursor, &area, &s1);
    assert_eq!(s2, s1);
}

#[test]
fn first_render_draws_every_cell_then_only_changes() {
    let cfg = config(LineNumbers::Absolute, 3);
    let mut view = TuiView::new(Rect::new(0, 0, 6, 2), &cfg);
    let frame = view.render(&cells("ab\ncd"), 2, &Position { row: 0, col: 0 }, Some(3), Mode::Normal, &theme(), &Style::plain());
    assert_eq!(frame.changes.len(), 12);
    let row0: String = frame.changes[0..6].iter().map(|c| c.cell.c).collect();
    let row1: String = frame.changes[6..12].iter().map(|c| c.cell.c).collect();
    assert_eq!(row0, " 1 ab ");
    assert_eq!(row1, " 2 cd ");
    assert!(frame.changes.iter().all(|c| c.cell.style.bg == Some(Color::Black)));
    assert_eq!(frame.cursor, Position { row: 0, col: 3 });

    let again = view.render(&cells("ab\ncd"), 2, &Position { row: 0, col: 0 }, Some(3), Mode::Normal, &theme(), &Style::plain());
    assert!(again.changes.is_empty());

    let edited = view.render(&cells("ab\nxd"), 2, &Position { row: 1, col: 0 }, Some(3), Mode::Normal, &theme(), &Style::plain());
    assert_eq!(edited.changes.len(), 1);
    assert_eq!(edited.changes[0].row, 1);
    assert_eq!(edited.changes[0].col, 3);
    assert_eq!(edited.changes[0].cell.c, 'x');
}

#[test]
fn render_places_changes_in_terminal_coordinates() {
    let cfg = config(LineNumbers::Off, 0);
    let mut view = TuiView::new(Rect::new(4, 2, 3, 1), &cfg);
    let frame = view.render(&cells("xyz"), 1, &Position { row: 0, col: 0 }, Some(4), Mode::Insert, &theme(), &Style::plain());
    assert_eq!(frame.changes.len(), 3);
    assert_eq!((frame.changes[0].row, frame.changes[0].col), (2, 4));
    assert_eq!((frame.changes[2].row, frame.changes[2].col), (2, 6));
}

#[test]
fn invalidate_forces_full_redraw() {
    let cfg = config(LineNumbers::Off, 0);
    let mut view = TuiView::new(Rect::new(0, 0, 2, 2), &cfg);
    view.render(&cells("a"), 1, &Position { row: 0, col: 0 }, Some(2), Mode::Normal, &theme(), &Style::plain());
    view.invalidate();
    let frame = view.render(&cells("a"), 1, &Position { row: 0, col: 0 }, Some(2), Mode::Normal, &theme(), &Style::plain());
    assert_eq!(frame.changes.len(), 4);
}

#[test]
fn cursor_is_clamped_by_mode() {
    let cfg = config(LineNumbers::Absolute, 4);
    let view = TuiView::new(Rect::new(0, 0, 20, 5), &cfg);
    let c = Position { row: 2, col: 10 };
    assert_eq!(view.cursor_position(Mode::Normal, &c, Some(5)), Position { row: 2, col: 7 });
    assert_eq!(view.cursor_position(Mode::Insert, &c, Some(5)), Position { row: 2, col: 8 });
    assert_eq!(view.cursor_position(Mode::Normal, &c, None), Position { row: 2, col: 4 });
}

#[test]
fn horizontal_scroll_shifts_content() {
    let cfg = config(LineNumbers::Off, 0);
    let mut view = TuiView::new(Rect::new(0, 0, 3, 2), &cfg);
    view.maybe_scroll(&Position { row: 0, col: 4 });
    let frame = view.render(&cells("abcdef"), 1, &Position { row: 0, col: 4 }, Some(7), Mode::Insert, &theme(), &Style::plain());
    assert_eq!(view.scroll, Position { row: 0, col: 2 });
    let row: String = frame.changes[0..3].iter().map(|c| c.cell.c).collect();
    assert_eq!(row, "cde");
    assert_eq!(frame.cursor, Position { row: 0, col: 2 });
}

fn session_config() -> Config {
    let mut cfg = config(LineNumbers::Absolute, 6);
    cfg.keys.normal = KeyMap {
        bindings: vec![
            Binding { key: "i".to_string(), action: KeyAction::Simple(Action::EnterMode(Mode::Insert)) },
            Binding { key: "q".to_string(), action: KeyAction::Simple(Action::Quit) },
            Binding { key: "o".to_string(), action: KeyAction::Multiple(vec![Action::InsertLineBelow, Action::EnterMode(Mode::Insert)]) },
        ],
    };
    cfg
}

fn key(c: char) -> Event {
    Event::Key(KeyEvent { code: KeyCode::Char(c), modifiers: Modifiers { shift: false, control: false, alt: false } })
}

#[test]
fn session_enters_insert_mode() {
    let cfg = session_config();
    let mut session = Session::new(&cfg, Size { height: 24, width: 80 });
    let step = session.on_event(&key('i'));
    assert!(!step.quit);
    assert_eq!(step.effects, vec![Effect::CursorStyle(CursorShape::SteadyBar)]);
    assert_eq!(session.mode, Mode::Insert);
    let typed = session.on_event(&key('z'));
    assert_eq!(typed.effects, vec![Effect::Window(Action::InsertChar('z'), Mode::Insert)]);
}

#[test]
fn session_batch_runs_in_order() {
    let cfg = session_config();
    let mut session = Session::new(&cfg, Size { height: 24, width: 80 });
    let step = session.on_event(&key('o'));
    assert_eq!(
        step.effects,
        vec![Effect::Window(Action::InsertLineBelow, Mode::Normal), Effect::CursorStyle(CursorShape::SteadyBar)]
    );
    assert_eq!(session.mode, Mode::Insert);
}

#[test]
fn session_quits_on_quit() {
    let cfg = session_config();
    let mut session = Session::new(&cfg, Size { height: 24, width: 80 });
    let step = session.on_event(&key('q'));
    assert!(step.quit);
    assert!(step.effects.is_empty());
}

#[test]
fn session_resize_leaves_two_rows() {
    let cfg = session_config();
    let mut session = Session::new(&cfg, Size { height: 24, width: 80 });
    let step = session.on_event(&Event::Resize(100, 40));
    assert_eq!(step.effects, vec![Effect::ResizeWindow(Rect { row: 0, col: 0, height: 38, width: 100 }, Mode::Normal)]);
    assert_eq!(session.size, Size { height: 40, width: 100 });
    assert_eq!(session.window_area(), Rect::new(0, 0, 100, 38));
}

#[test]
fn size_and_rect_from_terminal() {
    let size: Size = (80u16, 24u16).into();
    assert_eq!(size, Size { height: 24, width: 80 });
    let rect: Rect = size.into();
    assert_eq!(rect, Rect { row: 0, col: 0, height: 24, width: 80 });
}
