use vstd::prelude::*;

use crate::config::{Config, Keys};
use crate::editor::{lookup, trie_of, Action, KeyAction, KeyMap, KeyTrie, Mode};
use crate::text::{decimal, push_char, push_decimal};

verus! {

/// A key of the keyboard, as the terminal reports it.
#[derive(Clone, Debug, PartialEq, Eq)]
pub enum KeyCode {
    Backspace,
    Enter,
    Left,
    Right,
    Up,
    Down,
    Home,
    End,
    PageUp,
    PageDown,
    Tab,
    BackTab,
    Delete,
    Insert,
    F(u8),
    Char(char),
    Null,
    Esc,
    CapsLock,
    ScrollLock,
    NumLock,
    PrintScreen,
    Pause,
    Menu,
    KeypadBegin,
    /// A media key, by the name of its variant.
    Media(String),
    /// A lone modifier key, by the name of its variant.
    Modifier(String),
}

/// The modifier keys that take part in a key label.
#[derive(Clone, Copy, Debug, PartialEq, Eq, Structural)]
pub struct Modifiers {
    pub shift: bool,
    pub control: bool,
    pub alt: bool,
}

#[derive(Clone, Debug, PartialEq, Eq)]
pub struct KeyEvent {
    pub code: KeyCode,
    pub modifiers: Modifiers,
}

/// A raw terminal input event.
#[derive(Clone, Debug, PartialEq, Eq)]
pub enum Event {
    FocusGained,
    FocusLost,
    Key(KeyEvent),
    Mouse,
    Paste(String),
    Resize(u16, u16),
}

/// The label of a key without modifiers: a character key is the character
/// itself, any other key its symbolic name.
pub open spec fn key_name(code: KeyCode) -> Seq<char> {
    match code {
        KeyCode::Backspace => "Backspace"@,
        KeyCode::Enter => "Enter"@,
        KeyCode::Left => "Left"@,
        KeyCode::Right => "Right"@,
        KeyCode::Up => "Up"@,
        KeyCode::Down => "Down"@,
        KeyCode::Home => "Home"@,
        KeyCode::End => "End"@,
        KeyCode::PageUp => "PageUp"@,
        KeyCode::PageDown => "PageDown"@,
        KeyCode::Tab => "Tab"@,
        KeyCode::BackTab => "BackTab"@,
        KeyCode::Delete => "Delete"@,
        KeyCode::Insert => "Insert"@,
        KeyCode::F(n) => "F("@ + decimal(n as nat) + ")"@,
        KeyCode::Char(c) => seq![c],
        KeyCode::Null => "Null"@,
        KeyCode::Esc => "Esc"@,
        KeyCode::CapsLock => "CapsLock"@,
        KeyCode::ScrollLock => "ScrollLock"@,
        KeyCode::NumLock => "NumLock"@,
        KeyCode::PrintScreen => "PrintScreen"@,
        KeyCode::Pause => "Pause"@,
        KeyCode::Menu => "Menu"@,
        KeyCode::KeypadBegin => "KeypadBegin"@,
        KeyCode::Media(s) => "Media("@ + s@ + ")"@,
        KeyCode::Modifier(s) => "Modifier("@ + s@ + ")"@,
    }
}

/// The canonical label of a key press: at most one modifier prefix, with
/// Alt before Control before Shift.
pub open spec fn key_label(ev: KeyEvent) -> Seq<char> {
    if ev.modifiers.alt {
        "A-"@ + key_name(ev.code)
    } else if ev.modifiers.control {
        "C-"@ + key_name(ev.code)
    } else if ev.modifiers.shift {
        "S-"@ + key_name(ev.code)
    } else {
        key_name(ev.code)
    }
}

/// The key that continues a chord: a character key's character, a space
/// for any other key.
pub open spec fn chord_key(code: KeyCode) -> Seq<char> {
    match code {
        KeyCode::Char(c) => seq![c],
        _ => seq![' '],
    }
}

pub open spec fn opt_view(o: Option<String>) -> Option<Seq<char>> {
    match o {
        Some(s) => Some(s@),
        None => None,
    }
}

/// What a resolution gives: the binding, if any, and the chord left pending.
pub struct Resolution {
    pub action: Option<KeyTrie>,
    pub pending: Option<Seq<char>>,
}

/// Dispatch of an event by the table of `mode` when no chord is pending.
pub open spec fn dispatch(keys: Keys, ev: Event, mode: Mode) -> Resolution {
    match ev {
        Event::Key(k) => match mode {
            Mode::Normal => match lookup(keys.normal.entries(), key_label(k)) {
                Some(KeyTrie::Complex(_)) => Resolution { action: None, pending: Some(key_label(k)) },
                Some(t) => Resolution { action: Some(t), pending: None },
                None => Resolution { action: None, pending: None },
            },
            Mode::Insert => match lookup(keys.insert.entries(), key_label(k)) {
                Some(t) => Resolution { action: Some(t), pending: None },
                None => match k.code {
                    KeyCode::Char(c) => Resolution {
                        action: Some(KeyTrie::Simple(Action::InsertChar(c))),
                        pending: None,
                    },
                    _ => Resolution { action: None, pending: None },
                },
            },
            Mode::Command => match lookup(keys.command.entries(), key_label(k)) {
                Some(t) => Resolution { action: Some(t), pending: None },
                None => match k.code {
                    KeyCode::Char(c) => Resolution {
                        action: Some(KeyTrie::Simple(Action::InsertCommand(c))),
                        pending: None,
                    },
                    _ => Resolution { action: None, pending: None },
                },
            },
            Mode::Search => Resolution { action: None, pending: None },
        },
        _ => Resolution { action: None, pending: None },
    }
}

/// One step of key resolution from the pending chord `pending`.
pub open spec fn resolve(keys: Keys, pending: Option<Seq<char>>, ev: Event, mode: Mode) -> Resolution {
    match ev {
        Event::Resize(cols, rows) => Resolution {
            action: Some(KeyTrie::Simple(Action::Resize(cols, rows))),
            pending: None,
        },
        _ => match pending {
            Some(p) => Resolution {
                action: match ev {
                    Event::Key(k) => match lookup(keys.normal.entries(), p) {
                        Some(KeyTrie::Complex(es)) => lookup(es, chord_key(k.code)),
                        _ => None,
                    },
                    _ => None,
                },
                pending: None,
            },
            None => dispatch(keys, ev, mode),
        },
    }
}

pub open spec fn opt_trie(o: Option<KeyAction>) -> Option<KeyTrie> {
    match o {
        Some(a) => Some(trie_of(a)),
        None => None,
    }
}

fn name_string(code: &KeyCode) -> (r: String)
    ensures
        r@ == key_name(*code),
{
    match code {
        KeyCode::Backspace => String::from_str("Backspace"),
        KeyCode::Enter => String::from_str("Enter"),
        KeyCode::Left => String::from_str("Left"),
        KeyCode::Right => String::from_str("Right"),
        KeyCode::Up => String::from_str("Up"),
        KeyCode::Down => String::from_str("Down"),
        KeyCode::Home => String::from_str("Home"),
        KeyCode::End => String::from_str("End"),
        KeyCode::PageUp => String::from_str("PageUp"),
        KeyCode::PageDown => String::from_str("PageDown"),
        KeyCode::Tab => String::from_str("Tab"),
        KeyCode::BackTab => String::from_str("BackTab"),
        KeyCode::Delete => String::from_str("Delete"),
        KeyCode::Insert => String::from_str("Insert"),
        KeyCode::F(n) => {
            let mut s = String::from_str("F(");
            push_decimal(&mut s, *n as usize);
            s.append(")");
            s
        },
        KeyCode::Char(c) => {
            let mut s = String::new();
            push_char(&mut s, *c);
            assert(s@ =~= seq![*c]);
            s
        },
        KeyCode::Null => String::from_str("Null"),
        KeyCode::Esc => String::from_str("Esc"),
        KeyCode::CapsLock => String::from_str("CapsLock"),
        KeyCode::ScrollLock => String::from_str("ScrollLock"),
        KeyCode::NumLock => String::from_str("NumLock"),
        KeyCode::PrintScreen => String::from_str("PrintScreen"),
        KeyCode::Pause => String::from_str("Pause"),
        KeyCode::Menu => String::from_str("Menu"),
        KeyCode::KeypadBegin => String::from_str("KeypadBegin"),
        KeyCode::Media(m) => {
            let mut s = String::from_str("Media(");
            s.append(m.as_str());
            s.append(")");
            s
        },
        KeyCode::Modifier(m) => {
            let mut s = String::from_str("Modifier(");
            s.append(m.as_str());
            s.append(")");
            s
        },
    }
}

/// The canonical label of a key press.
pub fn label_of(key: &KeyEvent) -> (r: String)
    ensures
        r@ == key_label(*key),
{
    let name = name_string(&key.code);
    if key.modifiers.alt {
        let mut s = String::from_str("A-");
        s.append(name.as_str());
        s
    } else if key.modifiers.control {
        let mut s = String::from_str("C-");
        s.append(name.as_str());
        s
    } else if key.modifiers.shift {
        let mut s = String::from_str("S-");
        s.append(name.as_str());
        s
    } else {
        name
    }
}

fn chord_key_string(code: &KeyCode) -> (r: String)
    ensures
        r@ == chord_key(*code),
{
    let c = match code {
        KeyCode::Char(c) => *c,
        _ => ' ',
    };
    let mut s = String::new();
    push_char(&mut s, c);
    assert(s@ =~= chord_key(*code));
    s
}

fn copy_of(a: Option<&KeyAction>) -> (r: Option<KeyAction>)
    ensures
        opt_trie(r) == match a {
            Some(x) => Some(trie_of(*x)),
            None => None,
        },
{
    match a {
        Some(x) => Some(x.duplicate()),
        None => None,
    }
}

/// Resolves terminal events to key bindings, per mode, composing chords
/// through the normal table.
#[derive(Debug)]
pub struct TuiEventHandler<'a> {
    pub action_being_composed: Option<String>,
    pub config: &'a Config,
}

impl<'a> TuiEventHandler<'a> {
    pub fn new(config: &'a Config) -> (r: TuiEventHandler<'a>)
        ensures
            r.action_being_composed is None,
            r.config == config,
    {
        TuiEventHandler { action_being_composed: None, config }
    }

    /// The label of the chord being composed, if any.
    pub fn pending(&self) -> (r: Option<String>)
        ensures
            opt_view(r) == opt_view(self.action_being_composed),
    {
        match &self.action_being_composed {
            Some(s) => Some(s.clone()),
            None => None,
        }
    }

    /// One step of key resolution: what the event is bound to in `mode`,
    /// with chords composed through the normal table.
    pub fn poll(&mut self, event: &Event, mode: &Mode) -> (r: Option<KeyAction>)
        ensures
            final(self).config == old(self).config,
            opt_trie(r) == resolve(
                old(self).config.keys,
                opt_view(old(self).action_being_composed),
                *event,
                *mode,
            ).action,
            opt_view(final(self).action_being_composed) == resolve(
                old(self).config.keys,
                opt_view(old(self).action_being_composed),
                *event,
                *mode,
            ).pending,
    {
        if let Event::Resize(cols, rows) = event {
            self.action_being_composed = None;
            return Some(KeyAction::Simple(Action::Resize(*cols, *rows)));
        }
        let pending = self.action_being_composed.take();
        match pending {
            Some(p) => {
                match event {
                    Event::Key(k) => {
                        match self.config.keys.normal.get(&p) {
                            Some(KeyAction::Complex(complex)) => {
                                let key = chord_key_string(&k.code);
                                copy_of(complex.get(&key))
                            },
                            _ => None,
                        }
                    },
                    _ => None,
                }
            },
            None => match mode {
                Mode::Normal => self.handle_normal_event(event),
                Mode::Insert => self.handle_insert_event(event),
                Mode::Command => self.handle_command_event(event),
                Mode::Search => self.handle_search_event(event),
            },
        }
    }

    /// The label of a key event and its binding in `mappings`.
    pub fn map_event_to_key_action(&self, mappings: &KeyMap, event: &Event) -> (r: (
        Option<String>,
        Option<KeyAction>,
    ))
        ensures
            match event {
                Event::Key(k) => opt_view(r.0) == Some(key_label(*k)) && opt_trie(r.1) == lookup(
                    mappings.entries(),
                    key_label(*k),
                ),
                _ => r.0 is None && r.1 is None,
            },
    {
        match event {
            Event::Key(k) => {
                let key = label_of(k);
                let action = copy_of(mappings.get(&key));
                (Some(key), action)
            },
            _ => (None, None),
        }
    }

    /// Normal mode: a single binding resolves at once; a chord table starts
    /// a chord and gives nothing yet.
    pub fn handle_normal_event(&mut self, event: &Event) -> (r: Option<KeyAction>)
        requires
            old(self).action_being_composed is None,
        ensures
            final(self).config == old(self).config,
            opt_trie(r) == dispatch(old(self).config.keys, *event, Mode::Normal).action,
            opt_view(final(self).action_being_composed) == dispatch(
                old(self).config.keys,
                *event,
                Mode::Normal,
            ).pending,
    {
        let (key, action) = self.map_event_to_key_action(&self.config.keys.normal, event);
        match action {
            Some(KeyAction::Complex(m)) => {
                self.action_being_composed = key;
                None
            },
            Some(a) => Some(a),
            None => None,
        }
    }

    /// Insert mode: any binding resolves at once; an unbound character key
    /// inserts the character.
    pub fn handle_insert_event(&self, event: &Event) -> (r: Option<KeyAction>)
        ensures
            opt_trie(r) == dispatch(self.config.keys, *event, Mode::Insert).action,
    {
        let (_, action) = self.map_event_to_key_action(&self.config.keys.insert, event);
        if action.is_some() {
            return action;
        }
        match event {
            Event::Key(KeyEvent { code: KeyCode::Char(c), .. }) => Some(
                KeyAction::Simple(Action::InsertChar(*c)),
            ),
            _ => None,
        }
    }

    /// Command mode: any binding resolves at once; an unbound character key
    /// goes to the command line.
    pub fn handle_command_event(&self, event: &Event) -> (r: Option<KeyAction>)
        ensures
            opt_trie(r) == dispatch(self.config.keys, *event, Mode::Command).action,
    {
        let (_, action) = self.map_event_to_key_action(&self.config.keys.command, event);
        if action.is_some() {
            return action;
        }
        match event {
            Event::Key(KeyEvent { code: KeyCode::Char(c), .. }) => Some(
                KeyAction::Simple(Action::InsertCommand(*c)),
            ),
            _ => None,
        }
    }

    /// Search mode resolves nothing.
    pub fn handle_search_event(&self, event: &Event) -> (r: Option<KeyAction>)
        ensures
            r is None,
    {
        None
    }
}

/// A resize yields the resize action whatever the mode and whatever chord
/// is pending, and leaves no chord pending.
pub proof fn lemma_resize_always_resolves(
    keys: Keys,
    pending: Option<Seq<char>>,
    cols: u16,
    rows: u16,
    mode: Mode,
)
    ensures
        resolve(keys, pending, Event::Resize(cols, rows), mode) == (Resolution {
            action: Some(KeyTrie::Simple(Action::Resize(cols, rows))),
            pending: None,
        }),
{
}

/// In normal mode, a key bound to a chord table starts a chord and yields
/// nothing; the next key press, in any mode, yields that key's entry of the
/// table (nothing if it has none) and ends the chord.
pub proof fn lemma_chord(keys: Keys, first: KeyEvent, second: KeyEvent, mode: Mode)
    requires
        lookup(keys.normal.entries(), key_label(first)) is Some,
        lookup(keys.normal.entries(), key_label(first))->0 is Complex,
    ensures
        resolve(keys, None, Event::Key(first), Mode::Normal) == (Resolution {
            action: None,
            pending: Some(key_label(first)),
        }),
        resolve(keys, Some(key_label(first)), Event::Key(second), mode) == (Resolution {
            action: lookup(
                lookup(keys.normal.entries(), key_label(first))->0->Complex_0,
                chord_key(second.code),
            ),
            pending: None,
        }),
{
}

} // verus!
