use glyph::config::{Config, EditorBackground, Keys, LineNumbers};
use glyph::editor::{flatten_actions, Action, Binding, KeyAction, KeyMap, Mode};
use glyph::event_handler::{label_of, Event, KeyCode, KeyEvent, Modifiers, TuiEventHandler};

fn no_mods() -> Modifiers {
    Modifiers { shift: false, control: false, alt: false }
}

fn key(c: char) -> Event {
    Event::Key(KeyEvent { code: KeyCode::Char(c), modifiers: no_mods() })
}

fn bind(k: &str, action: KeyAction) -> Binding {
    Binding { key: k.to_string(), action }
}

fn config_with(normal: Vec<Binding>, insert: Vec<Binding>) -> Config {
    Config {
        keys: Keys {
            normal: KeyMap { bindings: normal },
            insert: KeyMap { bindings: insert },
            command: KeyMap { bindings: vec![] },
        },
        theme: String::new(),
        log_file: None,
        mouse_scroll_lines: None,
        gutter_width: 6,
        line_numbers: LineNumbers::Absolute,
        background: EditorBackground::Dark,
        empty_line_char: '~',
        show_diagnostics: true,
    }
}

fn dd_config() -> Config {
    config_with(
        vec![
            bind("d", KeyAction::Complex(KeyMap { bindings: vec![bind("d", KeyAction::Simple(Action::DeleteLine))] })),
            bind("x", KeyAction::Simple(Action::DeleteCurrentChar)),
            bind("C-s", KeyAction::Multiple(vec![Action::SaveBuffer, Action::MoveToTop])),
        ],
        vec![bind("Esc", KeyAction::Simple(Action::EnterMode(Mode::Normal)))],
    )
}

fn is_simple(a: &Option<KeyAction>, want: Action) -> bool {
    matches!(a, Some(KeyAction::Simple(x)) if *x == want)
}

#[test]
fn chord_dd_deletes_line() {
    let config = dd_config();
    let mut handler = TuiEventHandler::new(&config);
    assert_eq!(handler.pending(), None);
    let first = handler.poll(&key('d'), &Mode::Normal);
    assert!(first.is_none());
    assert_eq!(handler.pending(), Some("d".to_string()));
    let second = handler.poll(&key('d'), &Mode::Normal);
    assert!(is_simple(&second, Action::DeleteLine));
    assert_eq!(handler.pending(), None);
}

#[test]
fn chord_dx_is_swallowed() {
    let config = dd_config();
    let mut handler = TuiEventHandler::new(&config);
    assert!(handler.poll(&key('d'), &Mode::Normal).is_none());
    let second = handler.poll(&key('x'), &Mode::Normal);
    assert!(second.is_none());
    assert_eq!(handler.pending(), None);
    let third = handler.poll(&key('x'), &Mode::Normal);
    assert!(is_simple(&third, Action::DeleteCurrentChar));
}

#[test]
fn resize_yields_resize_in_every_state() {
    let config = dd_config();
    for mode in [Mode::Normal, Mode::Insert, Mode::Command, Mode::Search] {
        let mut handler = TuiEventHandler::new(&config);
        let r = handler.poll(&Event::Resize(80, 24), &mode);
        assert!(is_simple(&r, Action::Resize(80, 24)));
    }
    let mut handler = TuiEventHandler::new(&config);
    assert!(handler.poll(&key('d'), &Mode::Normal).is_none());
    let r = handler.poll(&Event::Resize(100, 30), &Mode::Normal);
    assert!(is_simple(&r, Action::Resize(100, 30)));
    assert_eq!(handler.pending(), None);
}

#[test]
fn insert_mode_falls_back_to_inserting() {
    let config = dd_config();
    let mut handler = TuiEventHandler::new(&config);
    assert!(is_simple(&handler.poll(&key('q'), &Mode::Insert), Action::InsertChar('q')));
    let esc = Event::Key(KeyEvent { code: KeyCode::Esc, modifiers: no_mods() });
    assert!(is_simple(&handler.poll(&esc, &Mode::Insert), Action::EnterMode(Mode::Normal)));
    let enter = Event::Key(KeyEvent { code: KeyCode::Enter, modifiers: no_mods() });
    assert!(handler.poll(&enter, &Mode::Insert).is_none());
}

#[test]
fn insert_mode_returns_complex_without_composing() {
    let config = dd_config();
    let mut handler = TuiEventHandler::new(&config);
    let r = handler.poll(&key('d'), &Mode::Insert);
    assert!(is_simple(&r, Action::InsertChar('d')));
    let config = config_with(
        vec![],
        vec![bind("j", KeyAction::Complex(KeyMap { bindings: vec![bind("k", KeyAction::Simple(Action::MoveUp))] }))],
    );
    let mut handler = TuiEventHandler::new(&config);
    let r = handler.poll(&key('j'), &Mode::Insert);
    assert!(matches!(r, Some(KeyAction::Complex(_))));
    assert_eq!(handler.pending(), None);
}

#[test]
fn command_mode_falls_back_to_command_line() {
    let config = dd_config();
    let mut handler = TuiEventHandler::new(&config);
    assert!(is_simple(&handler.poll(&key('w'), &Mode::Command), Action::InsertCommand('w')));
}

#[test]
fn search_mode_yields_nothing() {
    let config = dd_config();
    let mut handler = TuiEventHandler::new(&config);
    assert!(handler.poll(&key('x'), &Mode::Search).is_none());
}

#[test]
fn modifier_prefix_follows_priority() {
    let ev = |alt, control, shift, code| KeyEvent { code, modifiers: Modifiers { shift, control, alt } };
    assert_eq!(label_of(&ev(true, true, true, KeyCode::Char('x'))), "A-x");
    assert_eq!(label_of(&ev(false, true, true, KeyCode::Char('x'))), "C-x");
    assert_eq!(label_of(&ev(false, false, true, KeyCode::Left)), "S-Left");
    assert_eq!(label_of(&ev(false, false, false, KeyCode::F(12))), "F(12)");
    assert_eq!(label_of(&ev(false, false, false, KeyCode::Backspace)), "Backspace");
}

#[test]
fn control_binding_resolves_multiple() {
    let config = dd_config();
    let mut handler = TuiEventHandler::new(&config);
    let ev = Event::Key(KeyEvent { code: KeyCode::Char('s'), modifiers: Modifiers { shift: false, control: true, alt: false } });
    match handler.poll(&ev, &Mode::Normal) {
        Some(KeyAction::Multiple(v)) => assert_eq!(v, vec![Action::SaveBuffer, Action::MoveToTop]),
        _ => panic!("expected a sequence"),
    }
}

#[test]
fn flattening_complex_fires_every_entry() {
    let action = KeyAction::Complex(KeyMap {
        bindings: vec![bind("a", KeyAction::Simple(Action::Undo)), bind("b", KeyAction::Simple(Action::Hover))],
    });
    let mut actions = Vec::new();
    flatten_actions(&mut actions, action);
    assert_eq!(actions.len(), 2);
    assert!(actions.contains(&Action::Undo));
    assert!(actions.contains(&Action::Hover));
}

#[test]
fn flattening_keeps_sequence_order() {
    let mut actions = vec![Action::Quit];
    flatten_actions(&mut actions, KeyAction::Multiple(vec![Action::MoveUp, Action::MoveDown]));
    flatten_actions(&mut actions, KeyAction::Simple(Action::PageUp));
    assert_eq!(actions, vec![Action::Quit, Action::MoveUp, Action::MoveDown, Action::PageUp]);
}

#[test]
fn key_map_lookup() {
    let m = KeyMap { bindings: vec![bind("a", KeyAction::Simple(Action::Undo))] };
    assert!(matches!(m.get(&"a".to_string()), Some(KeyAction::Simple(Action::Undo))));
    assert!(m.get(&"b".to_string()).is_none());
}

#[test]
fn mode_labels() {
    assert_eq!(Mode::Normal.label(), "NORMAL");
    assert_eq!(Mode::Insert.label(), "INSERT");
    assert_eq!(Mode::Command.label(), "COMMAND");
    assert_eq!(Mode::Search.label(), "SEARCH");
}

#[test]
fn key_map_insert_replaces_binding() {
    let mut m = KeyMap::new();
    m.insert("a".to_string(), KeyAction::Simple(Action::Undo));
    m.insert("b".to_string(), KeyAction::Simple(Action::MoveUp));
    m.insert("a".to_string(), KeyAction::Simple(Action::Hover));
    assert_eq!(m.bindings.len(), 2);
    assert!(matches!(m.get(&"a".to_string()), Some(KeyAction::Simple(Action::Hover))));
    assert!(matches!(m.get(&"b".to_string()), Some(KeyAction::Simple(Action::MoveUp))));
}
