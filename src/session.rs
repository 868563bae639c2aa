use vstd::prelude::*;

use crate::config::Config;
use crate::editor::{flat, flatten_actions, trie_of, Action, KeyAction, Mode, Rect, Size};
use crate::event_handler::{opt_view, resolve, Event, TuiEventHandler};

verus! {

/// The shape of the terminal cursor.
#[derive(Clone, Copy, Debug, PartialEq, Eq, Structural)]
pub enum CursorShape {
    SteadyBar,
    SteadyBlock,
}

/// One piece of outside work that an action asks for, in order.
#[derive(Clone, Copy, Debug, PartialEq, Eq, Structural)]
pub enum Effect {
    /// Apply the action to the active window's buffer and cursor, in the
    /// given mode, and render the window again.
    Window(Action, Mode),
    /// Change the shape of the terminal cursor.
    CursorStyle(CursorShape),
    /// Ask the language server for hover information at the cursor.
    RequestHover,
    /// Give the active window a new area and render it again.
    ResizeWindow(Rect, Mode),
}

/// The actions that the active window carries out on its buffer and cursor.
pub open spec fn is_window_action(a: Action) -> bool {
    match a {
        Action::MoveToLineStart | Action::MoveToLineEnd | Action::DeletePreviousChar
        | Action::DeleteCurrentChar | Action::NextWord | Action::MoveLeft | Action::MoveDown
        | Action::MoveUp | Action::MoveRight | Action::MoveToTop | Action::SaveBuffer
        | Action::MoveToBottom | Action::InsertLine | Action::InsertLineBelow
        | Action::InsertLineAbove | Action::InsertChar(_) => true,
        _ => false,
    }
}

/// The window area for a terminal of `size`: all of it but the two bottom
/// rows, which hold the status line and the command line.
pub open spec fn window_area(size: Size) -> Rect {
    Rect {
        row: 0,
        col: 0,
        height: if size.height >= 2 {
            (size.height - 2) as usize
        } else {
            0
        },
        width: size.width,
    }
}

/// The state the editor keeps between events.
pub struct State {
    pub mode: Mode,
    pub size: Size,
}

/// What one action does: its effects and the state after it.
pub open spec fn action_step(st: State, a: Action) -> (Seq<Effect>, State) {
    if is_window_action(a) {
        (seq![Effect::Window(a, st.mode)], st)
    } else {
        match a {
            Action::EnterMode(Mode::Insert) => (
                seq![Effect::CursorStyle(CursorShape::SteadyBar)],
                State { mode: Mode::Insert, size: st.size },
            ),
            Action::EnterMode(Mode::Normal) => (
                seq![Effect::CursorStyle(CursorShape::SteadyBlock)],
                State { mode: Mode::Normal, size: st.size },
            ),
            Action::EnterMode(Mode::Command) => (
                seq![Effect::CursorStyle(CursorShape::SteadyBar)],
                State { mode: Mode::Command, size: st.size },
            ),
            Action::Hover => (seq![Effect::RequestHover], st),
            Action::Resize(cols, rows) => {
                let size = Size { width: cols as usize, height: rows as usize };
                (seq![Effect::ResizeWindow(window_area(size), st.mode)], State { mode: st.mode, size })
            },
            _ => (Seq::empty(), st),
        }
    }
}

/// What a batch of actions does, applied in order.
pub open spec fn plan(st: State, acts: Seq<Action>) -> (Seq<Effect>, State)
    decreases acts.len(),
{
    if acts.len() == 0 {
        (Seq::empty(), st)
    } else {
        let (effects, mid) = plan(st, acts.drop_last());
        let (more, last) = action_step(mid, acts.last());
        (effects + more, last)
    }
}

/// What the event loop does for one input event.
#[derive(Debug)]
pub struct Step {
    /// The session ends.
    pub quit: bool,
    pub effects: Vec<Effect>,
}

/// The decisions of the editor's event loop: the mode, the terminal size and
/// key resolution. The loop itself, the terminal and the language server
/// stay outside; they feed events in and carry the effects out.
pub struct Session<'a> {
    pub mode: Mode,
    pub size: Size,
    pub event_handler: TuiEventHandler<'a>,
}

fn window_rect(size: Size) -> (r: Rect)
    ensures
        r == window_area(size),
{
    Rect { row: 0, col: 0, height: size.height.saturating_sub(2), width: size.width }
}

fn is_window(a: Action) -> (r: bool)
    ensures
        r == is_window_action(a),
{
    match a {
        Action::MoveToLineStart | Action::MoveToLineEnd | Action::DeletePreviousChar
        | Action::DeleteCurrentChar | Action::NextWord | Action::MoveLeft | Action::MoveDown
        | Action::MoveUp | Action::MoveRight | Action::MoveToTop | Action::SaveBuffer
        | Action::MoveToBottom | Action::InsertLine | Action::InsertLineBelow
        | Action::InsertLineAbove | Action::InsertChar(_) => true,
        _ => false,
    }
}

impl<'a> Session<'a> {
    pub open spec fn state(&self) -> State {
        State { mode: self.mode, size: self.size }
    }

    /// A session in normal mode on a terminal of `size`.
    pub fn new(config: &'a Config, size: Size) -> (r: Session<'a>)
        ensures
            r.mode == Mode::Normal,
            r.size == size,
            r.event_handler.config == config,
            r.event_handler.action_being_composed is None,
    {
        Session { mode: Mode::Normal, size, event_handler: TuiEventHandler::new(config) }
    }

    /// The area of the active window.
    pub fn window_area(&self) -> (r: Rect)
        ensures
            r == window_area(self.size),
    {
        window_rect(self.size)
    }

    fn apply(&mut self, a: Action, effects: &mut Vec<Effect>)
        ensures
            final(effects)@ == old(effects)@ + action_step(old(self).state(), a).0,
            final(self).state() == action_step(old(self).state(), a).1,
            final(self).event_handler == old(self).event_handler,
    {
        if is_window(a) {
            effects.push(Effect::Window(a, self.mode));
            assert(final(effects)@ =~= old(effects)@ + action_step(old(self).state(), a).0);
            return;
        }
        match a {
            Action::EnterMode(Mode::Insert) => {
                self.mode = Mode::Insert;
                effects.push(Effect::CursorStyle(CursorShape::SteadyBar));
            },
            Action::EnterMode(Mode::Normal) => {
                self.mode = Mode::Normal;
                effects.push(Effect::CursorStyle(CursorShape::SteadyBlock));
            },
            Action::EnterMode(Mode::Command) => {
                self.mode = Mode::Command;
                effects.push(Effect::CursorStyle(CursorShape::SteadyBar));
            },
            Action::Hover => {
                effects.push(Effect::RequestHover);
            },
            Action::Resize(cols, rows) => {
                self.size = Size { width: cols as usize, height: rows as usize };
                effects.push(Effect::ResizeWindow(window_rect(self.size), self.mode));
            },
            _ => {},
        }
        assert(effects@ =~= old(effects)@ + action_step(old(self).state(), a).0);
    }

    /// Runs a resolved binding: flattens it into atomic actions and carries
    /// them out in order as one batch.
    pub fn handle_action(&mut self, action: KeyAction) -> (r: Vec<Effect>)
        ensures
            r@ == plan(old(self).state(), flat(trie_of(action))).0,
            final(self).state() == plan(old(self).state(), flat(trie_of(action))).1,
            final(self).event_handler == old(self).event_handler,
    {
        let mut actions: Vec<Action> = Vec::new();
        flatten_actions(&mut actions, action);
        assert(actions@ =~= flat(trie_of(action)));
        let mut effects: Vec<Effect> = Vec::new();
        let mut i: usize = 0;
        while i < actions.len()
            invariant
                i <= actions@.len(),
                actions@ == flat(trie_of(action)),
                self.event_handler == old(self).event_handler,
                effects@ == plan(old(self).state(), actions@.take(i as int)).0,
                self.state() == plan(old(self).state(), actions@.take(i as int)).1,
            decreases actions@.len() - i,
        {
            let a = actions[i];
            self.apply(a, &mut effects);
            proof {
                assert(actions@.take(i as int + 1).drop_last() =~= actions@.take(i as int));
            }
            i = i + 1;
        }
        assert(actions@.take(i as int) =~= actions@);
        effects
    }

    /// One input event: resolve it in the current mode; a lone `Quit`
    /// ends the session, any other binding is carried out.
    pub fn on_event(&mut self, event: &Event) -> (r: Step)
        ensures
            ({
                let res = resolve(
                    old(self).event_handler.config.keys,
                    opt_view(old(self).event_handler.action_being_composed),
                    *event,
                    old(self).mode,
                );
                &&& opt_view(final(self).event_handler.action_being_composed) == res.pending
                &&& final(self).event_handler.config == old(self).event_handler.config
                &&& match res.action {
                    None => !r.quit && r.effects@.len() == 0 && final(self).state()
                        == old(self).state(),
                    Some(t) => if t == crate::editor::KeyTrie::Simple(Action::Quit) {
                        r.quit && r.effects@.len() == 0 && final(self).state() == old(self).state()
                    } else {
                        !r.quit && r.effects@ == plan(old(self).state(), flat(t)).0
                            && final(self).state() == plan(old(self).state(), flat(t)).1
                    },
                }
            }),
    {
        let mode = self.mode;
        let resolved = self.event_handler.poll(event, &mode);
        match resolved {
            None => Step { quit: false, effects: Vec::new() },
            Some(KeyAction::Simple(Action::Quit)) => Step { quit: true, effects: Vec::new() },
            Some(action) => {
                let effects = self.handle_action(action);
                Step { quit: false, effects }
            },
        }
    }
}

/// A tab of the editor.
pub struct Tab {
    pub id: usize,
}

impl Tab {
    pub fn new(id: usize) -> (r: Tab)
        ensures
            r.id == id,
    {
        Tab { id }
    }

    /// A tab holds no layout of its own yet: resizing leaves it as it is.
    pub fn resize(&mut self, new_size: Rect, mode: &Mode)
        ensures
            final(self).id == old(self).id,
    {
    }

    /// A tab holds no state that an action changes.
    pub fn handle_action(&mut self, action: &KeyAction, mode: &Mode)
        ensures
            final(self).id == old(self).id,
    {
    }

    /// A tab draws nothing of its own.
    pub fn initialize(&mut self, mode: &Mode)
        ensures
            final(self).id == old(self).id,
    {
    }
}

} // verus!
