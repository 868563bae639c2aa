use glyph::config::LineNumbers;
use glyph::gutter::{AbsoluteLineGutter, Gutter, LineGutter, NoopLineGutter, RelativeLineGutter};

#[test]
fn absolute_line_gutter_test_draw_gutter() {
    let absolute_gutter = AbsoluteLineGutter::new('~', 6);

    let lines = absolute_gutter.get_lines(3, 2, 0, 10);
    assert_eq!(lines.len(), 10);
    assert_eq!(lines[0], "    1 ");
    assert_eq!(lines[2], "    3 ");
    assert_eq!(lines[3], "    ~ ");
    assert_eq!(lines[9], "    ~ ");
}

#[test]
fn absolute_line_gutter_test_draw_with_scroll() {
    let absolute_gutter = AbsoluteLineGutter::new('~', 6);
    let lines = absolute_gutter.get_lines(400, 0, 103, 10);
    assert_eq!(lines.len(), 10);
    assert_eq!(lines[0], "  104 ");
    assert_eq!(lines[9], "  113 ");
}

#[test]
fn test_ensure_does_nothing() {
    let noop_gutter = NoopLineGutter::default();
    let lines = noop_gutter.get_lines(2, 1, 0, 0);
    assert!(lines.is_empty());
}

#[test]
fn relative_line_gutter_test_draw_gutter() {
    let relative_gutter = RelativeLineGutter::new('~', 6, LineNumbers::Relative);

    let lines = relative_gutter.get_lines(3, 2, 0, 0);
    assert!(lines.is_empty());
}

#[test]
fn relative_line_gutter_test_draw_with_scroll() {
    let relative_gutter = RelativeLineGutter::new('~', 6, LineNumbers::Relative);

    let lines = relative_gutter.get_lines(400, 103, 103, 0);
    assert!(lines.is_empty());
}

#[test]
fn test_draw_with_scroll_numbered() {
    let relative_gutter = RelativeLineGutter::new('~', 6, LineNumbers::RelativeNumbered);

    let lines = relative_gutter.get_lines(400, 103, 103, 100);
    assert_eq!(lines.len(), 100);
    assert_eq!(lines[0], "  104 ");
    assert_eq!(lines[1], "    1 ");
    assert_eq!(lines[99], "   99 ");
}

#[test]
fn relative_gutter_fills_every_row_past_the_end() {
    let gutter = RelativeLineGutter::new('~', 4, LineNumbers::Relative);
    let lines = gutter.get_lines(2, 0, 0, 5);
    assert_eq!(lines, vec!["  0 ", "  1 ", "  ~ ", "  ~ ", "  ~ "]);
}

#[test]
fn relative_gutter_plain_shows_zero_on_cursor_line() {
    let gutter = RelativeLineGutter::new('~', 4, LineNumbers::Relative);
    let lines = gutter.get_lines(10, 1, 0, 3);
    assert_eq!(lines, vec!["  1 ", "  0 ", "  1 "]);
}

#[test]
fn relative_numbered_shows_absolute_on_cursor_line() {
    let gutter = RelativeLineGutter::new('~', 4, LineNumbers::RelativeNumbered);
    let lines = gutter.get_lines(10, 1, 0, 3);
    assert_eq!(lines, vec!["  1 ", "  2 ", "  1 "]);
}

#[test]
fn relative_numbered_cursor_below_view() {
    let gutter = RelativeLineGutter::new('~', 6, LineNumbers::RelativeNumbered);
    let lines = gutter.get_lines(10, 5, 0, 3);
    assert_eq!(lines, vec!["    5 ", "    4 ", "    3 "]);
}

#[test]
fn gutter_labels_have_fixed_width_and_count() {
    for g in [
        LineGutter::from_config(LineNumbers::Absolute, '~', 5),
        LineGutter::from_config(LineNumbers::Relative, '~', 5),
        LineGutter::from_config(LineNumbers::RelativeNumbered, '~', 5),
    ] {
        let lines = g.get_lines(7, 3, 2, 12);
        assert_eq!(lines.len(), 12);
        assert!(lines.iter().all(|l| l.chars().count() == 5 && l.ends_with(' ')));
    }
}

#[test]
fn gutter_off_is_empty() {
    let g = LineGutter::from_config(LineNumbers::Off, '~', 5);
    assert!(g.get_lines(7, 3, 2, 12).is_empty());
}

#[test]
fn wide_number_is_not_padded() {
    let gutter = AbsoluteLineGutter::new('~', 3);
    let lines = gutter.get_lines(1000, 0, 998, 2);
    assert_eq!(lines, vec!["999 ", "1000 "]);
}

#[test]
fn rows_past_the_end_show_filler_when_scrolled() {
    let absolute = AbsoluteLineGutter::new('~', 4);
    assert_eq!(absolute.get_lines(8, 0, 5, 5), vec!["  6 ", "  7 ", "  8 ", "  ~ ", "  ~ "]);
    let relative = RelativeLineGutter::new('~', 4, LineNumbers::RelativeNumbered);
    assert_eq!(relative.get_lines(8, 6, 5, 5), vec!["  1 ", "  7 ", "  1 ", "  ~ ", "  ~ "]);
    assert_eq!(absolute.get_lines(3, 0, 5, 2), vec!["  ~ ", "  ~ "]);
}
