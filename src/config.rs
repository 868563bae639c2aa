use vstd::prelude::*;

use crate::editor::KeyMap;

verus! {

/// How the gutter numbers lines.
#[derive(Clone, Copy, Debug, PartialEq, Eq, Structural)]
pub enum LineNumbers {
    Absolute,
    Relative,
    RelativeNumbered,
    /// No line numbers.
    Off,
}

/// Which default theme is used.
#[derive(Clone, Copy, Debug, PartialEq, Eq, Structural)]
pub enum EditorBackground {
    Light,
    Dark,
}

/// The key tables of the modes that have one.
#[derive(Debug)]
pub struct Keys {
    pub normal: KeyMap,
    pub insert: KeyMap,
    pub command: KeyMap,
}

impl Keys {
    /// Three empty tables.
    pub fn empty() -> (r: Keys)
        ensures
            r.normal.wf() && r.insert.wf() && r.command.wf(),
            r.normal.entries().len() == 0,
            r.insert.entries().len() == 0,
            r.command.entries().len() == 0,
    {
        Keys { normal: KeyMap::new(), insert: KeyMap::new(), command: KeyMap::new() }
    }
}

/// The editor's settings.
#[derive(Debug)]
pub struct Config {
    pub keys: Keys,
    pub theme: String,
    pub log_file: Option<String>,
    pub mouse_scroll_lines: Option<usize>,
    pub gutter_width: usize,
    pub line_numbers: LineNumbers,
    pub background: EditorBackground,
    pub empty_line_char: char,
    pub show_diagnostics: bool,
}

} // verus!
