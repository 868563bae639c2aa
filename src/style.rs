use vstd::prelude::*;

verus! {

/// A terminal color, as the terminal backend names them.
#[derive(Clone, Copy, Debug, PartialEq, Eq, Structural)]
pub enum Color {
    Reset,
    Black,
    DarkGrey,
    Red,
    DarkRed,
    Green,
    DarkGreen,
    Yellow,
    DarkYellow,
    Blue,
    DarkBlue,
    Magenta,
    DarkMagenta,
    Cyan,
    DarkCyan,
    White,
    Grey,
    Rgb { r: u8, g: u8, b: u8 },
    AnsiValue(u8),
}

/// Visual style of a cell. Unset colors are resolved against the theme's
/// default style only when the cell is written to the terminal.
#[derive(Clone, Copy, Debug, PartialEq, Eq, Structural)]
pub struct Style {
    pub fg: Option<Color>,
    pub bg: Option<Color>,
    pub bold: bool,
    pub italic: bool,
    pub underline: bool,
}

pub open spec fn or_else(first: Option<Color>, second: Option<Color>) -> Option<Color> {
    if first is Some {
        first
    } else {
        second
    }
}

/// The style a cell is shown with: its own colors where set, else the
/// theme default's; attributes are the cell's own or the default's.
pub open spec fn resolved(style: Style, default: Style) -> Style {
    Style {
        fg: or_else(style.fg, default.fg),
        bg: or_else(style.bg, default.bg),
        bold: style.bold || default.bold,
        italic: style.italic || default.italic,
        underline: style.underline || default.underline,
    }
}

impl Style {
    /// A style with nothing set: every field falls back to the theme.
    pub fn plain() -> (r: Style)
        ensures
            r == (Style { fg: None, bg: None, bold: false, italic: false, underline: false }),
    {
        Style { fg: None, bg: None, bold: false, italic: false, underline: false }
    }

    pub fn resolve(&self, default: &Style) -> (r: Style)
        ensures
            r == resolved(*self, *default),
    {
        let fg = match self.fg {
            Some(c) => Some(c),
            None => default.fg,
        };
        let bg = match self.bg {
            Some(c) => Some(c),
            None => default.bg,
        };
        Style {
            fg,
            bg,
            bold: self.bold || default.bold,
            italic: self.italic || default.italic,
            underline: self.underline || default.underline,
        }
    }
}

impl Default for Style {
    fn default() -> (r: Style)
        ensures
            r == (Style { fg: None, bg: None, bold: false, italic: false, underline: false }),
    {
        Style::plain()
    }
}

} // verus!
