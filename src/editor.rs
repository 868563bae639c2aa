use vstd::prelude::*;

use crate::style::Style;

verus! {

/// The editor's modes; each picks the key table that is consulted.
#[derive(Clone, Copy, Debug, PartialEq, Eq, Structural)]
pub enum Mode {
    Normal,
    Insert,
    Command,
    Search,
}

impl Mode {
    /// The upper-case name shown for the mode.
    pub fn label(&self) -> (r: &'static str)
        ensures
            r@ == mode_label(*self),
    {
        match self {
            Mode::Search => "SEARCH",
            Mode::Insert => "INSERT",
            Mode::Normal => "NORMAL",
            Mode::Command => "COMMAND",
        }
    }
}

pub open spec fn mode_label(m: Mode) -> Seq<char> {
    match m {
        Mode::Search => "SEARCH"@,
        Mode::Insert => "INSERT"@,
        Mode::Normal => "NORMAL"@,
        Mode::Command => "COMMAND"@,
    }
}

/// One atomic editor action.
#[derive(Clone, Copy, Debug, PartialEq, Eq, Structural)]
pub enum Action {
    EnterMode(Mode),
    Quit,
    Undo,
    InsertLine,
    InsertLineBelow,
    InsertLineAbove,
    PasteBelow,
    FindNext,
    FindPrevious,
    CenterLine,
    InsertTab,
    InsertChar(char),
    InsertCommand(char),
    ExecuteCommand,
    SaveBuffer,
    DeleteUntilEOL,
    Resize(u16, u16),
    NextWord,
    PreviousWord,
    MoveLeft,
    MoveDown,
    MoveUp,
    MoveRight,
    MoveToBottom,
    MoveToTop,
    MoveToLineEnd,
    MoveToLineStart,
    PageDown,
    PageUp,
    DeleteCurrentChar,
    DeleteBack,
    DeleteWord,
    DeleteLine,
    DeletePreviousChar,
    GoToDefinition,
    Hover,
}

/// What a key is bound to: one action, a sequence run in order, or a chord
/// continuation table.
#[derive(Debug)]
pub enum KeyAction {
    Simple(Action),
    Multiple(Vec<Action>),
    Complex(KeyMap),
}

/// One entry of a key table.
#[derive(Debug)]
pub struct Binding {
    pub key: String,
    pub action: KeyAction,
}

/// A key table: key labels to what they are bound to. A well-formed table
/// (`wf`) holds each label once; `new` and `insert` keep it so.
#[derive(Debug)]
pub struct KeyMap {
    pub bindings: Vec<Binding>,
}

/// Terminal dimensions.
#[derive(Clone, Copy, Debug, PartialEq, Eq, Structural)]
pub struct Size {
    pub height: usize,
    pub width: usize,
}

impl From<(u16, u16)> for Size {
    /// From `(columns, rows)` as the terminal reports them.
    fn from(wh: (u16, u16)) -> (r: Size) {
        Size { width: wh.0 as usize, height: wh.1 as usize }
    }
}

impl vstd::std_specs::convert::FromSpecImpl<(u16, u16)> for Size {
    open spec fn obeys_from_spec() -> bool {
        true
    }

    open spec fn from_spec(wh: (u16, u16)) -> Size {
        Size { width: wh.0 as usize, height: wh.1 as usize }
    }
}

impl Default for Size {
    fn default() -> (r: Size)
        ensures
            r == (Size { height: 0, width: 0 }),
    {
        Size { height: 0, width: 0 }
    }
}

/// A row and a column, both 0-indexed: a cursor or a scroll offset.
#[derive(Clone, Copy, Debug, PartialEq, Eq, Structural)]
pub struct Position {
    pub row: usize,
    pub col: usize,
}

impl Default for Position {
    fn default() -> (r: Position)
        ensures
            r == (Position { row: 0, col: 0 }),
    {
        Position { row: 0, col: 0 }
    }
}

/// Placement of a window or layer in absolute terminal coordinates.
#[derive(Clone, Copy, Debug, PartialEq, Eq, Structural)]
pub struct Rect {
    pub row: usize,
    pub col: usize,
    pub height: usize,
    pub width: usize,
}

impl Rect {
    pub fn new(col: usize, row: usize, width: usize, height: usize) -> (r: Rect)
        ensures
            r == (Rect { row, col, height, width }),
    {
        Rect { col, row, width, height }
    }
}

impl From<Size> for Rect {
    /// The whole terminal, from its top left corner.
    fn from(size: Size) -> (r: Rect) {
        Rect { col: 0, row: 0, width: size.width, height: size.height }
    }
}

impl vstd::std_specs::convert::FromSpecImpl<Size> for Rect {
    open spec fn obeys_from_spec() -> bool {
        true
    }

    open spec fn from_spec(size: Size) -> Rect {
        Rect { col: 0, row: 0, width: size.width, height: size.height }
    }
}

impl Default for Rect {
    fn default() -> (r: Rect)
        ensures
            r == (Rect { row: 0, col: 0, height: 0, width: 0 }),
    {
        Rect { row: 0, col: 0, height: 0, width: 0 }
    }
}

/// The atomic renderable unit: a character and its style.
#[derive(Clone, Copy, Debug, PartialEq, Eq, Structural)]
pub struct Cell {
    pub c: char,
    pub style: Style,
}

pub open spec fn blank_cell() -> Cell {
    Cell { c: ' ', style: Style { fg: None, bg: None, bold: false, italic: false, underline: false } }
}

impl Default for Cell {
    /// A space in the theme's default style.
    fn default() -> (r: Cell)
        ensures
            r == blank_cell(),
    {
        Cell { c: ' ', style: Style::plain() }
    }
}

/// The mathematical value of a `KeyAction`: a finite trie over key labels.
pub enum KeyTrie {
    Simple(Action),
    Multiple(Seq<Action>),
    Complex(Seq<(Seq<char>, KeyTrie)>),
}

pub open spec fn trie_of(a: KeyAction) -> KeyTrie
    decreases a,
{
    match a {
        KeyAction::Simple(x) => KeyTrie::Simple(x),
        KeyAction::Multiple(v) => KeyTrie::Multiple(v@),
        KeyAction::Complex(m) => KeyTrie::Complex(entries_of(m.bindings@)),
    }
}

pub open spec fn entries_of(bs: Seq<Binding>) -> Seq<(Seq<char>, KeyTrie)>
    decreases bs,
{
    if bs.len() == 0 {
        Seq::empty()
    } else {
        entries_of(bs.drop_last()).push((bs.last().key@, trie_of(bs.last().action)))
    }
}


/// Every action of a trie, in order: a `Complex` table fires all of its
/// entries, one after the other.
pub open spec fn flat(t: KeyTrie) -> Seq<Action>
    decreases t,
{
    match t {
        KeyTrie::Simple(a) => seq![a],
        KeyTrie::Multiple(s) => s,
        KeyTrie::Complex(es) => flat_entries(es),
    }
}

pub open spec fn flat_entries(es: Seq<(Seq<char>, KeyTrie)>) -> Seq<Action>
    decreases es,
{
    if es.len() == 0 {
        Seq::empty()
    } else {
        flat_entries(es.drop_last()) + flat(es.last().1)
    }
}

/// What a key table gives for a label: its first entry with that label.
pub open spec fn lookup(es: Seq<(Seq<char>, KeyTrie)>, k: Seq<char>) -> Option<KeyTrie>
    decreases es.len(),
{
    if es.len() == 0 {
        None
    } else if es[0].0 == k {
        Some(es[0].1)
    } else {
        lookup(es.drop_first(), k)
    }
}

pub proof fn lemma_entries_index(bs: Seq<Binding>)
    ensures
        entries_of(bs).len() == bs.len(),
        forall|i: int|
            0 <= i < bs.len() ==> #[trigger] entries_of(bs)[i] == (
            bs[i].key@,
            trie_of(bs[i].action),
        ),
    decreases bs.len(),
{
    if bs.len() > 0 {
        lemma_entries_index(bs.drop_last());
    }
}

proof fn lemma_entries_push(bs: Seq<Binding>, b: Binding)
    ensures
        entries_of(bs.push(b)) == entries_of(bs).push((b.key@, trie_of(b.action))),
{
    assert(bs.push(b).drop_last() =~= bs);
}

proof fn lemma_lookup_skip(es: Seq<(Seq<char>, KeyTrie)>, i: int, k: Seq<char>)
    requires
        0 <= i < es.len(),
        es[i].0 != k,
    ensures
        lookup(es.skip(i), k) == lookup(es.skip(i + 1), k),
{
    assert(es.skip(i).drop_first() =~= es.skip(i + 1));
}

/// Looking up a table where `k` first appears at `j`, after that entry is
/// replaced.
proof fn lemma_lookup_replace(es: Seq<(Seq<char>, KeyTrie)>, j: int, k: Seq<char>, t: KeyTrie, q: Seq<char>)
    requires
        0 <= j < es.len(),
        es[j].0 == k,
        forall|i: int| 0 <= i < j ==> es[i].0 != k,
    ensures
        lookup(es.update(j, (k, t)), q) == if q == k {
            Some(t)
        } else {
            lookup(es, q)
        },
    decreases j,
{
    if j == 0 {
        assert(es.update(j, (k, t)).drop_first() =~= es.drop_first());
    } else {
        let rest = es.drop_first();
        assert forall|i: int| 0 <= i < j - 1 implies rest[i].0 != k by {
            assert(rest[i] == es[i + 1]);
        }
        lemma_lookup_replace(rest, j - 1, k, t, q);
        assert(es.update(j, (k, t)).drop_first() =~= rest.update(j - 1, (k, t)));
    }
}

/// Looking up a table without `k` after `(k, t)` is appended.
proof fn lemma_lookup_append(es: Seq<(Seq<char>, KeyTrie)>, k: Seq<char>, t: KeyTrie, q: Seq<char>)
    requires
        forall|i: int| 0 <= i < es.len() ==> es[i].0 != k,
    ensures
        lookup(es.push((k, t)), q) == if q == k {
            Some(t)
        } else {
            lookup(es, q)
        },
    decreases es.len(),
{
    if es.len() == 0 {
        assert(es.push((k, t)).drop_first() =~= es);
    } else {
        let rest = es.drop_first();
        assert forall|i: int| 0 <= i < rest.len() implies rest[i].0 != k by {
            assert(rest[i] == es[i + 1]);
        }
        lemma_lookup_append(rest, k, t, q);
        assert(es.push((k, t)).drop_first() =~= rest.push((k, t)));
    }
}

/// No label appears twice in the table.
pub open spec fn distinct_keys(es: Seq<(Seq<char>, KeyTrie)>) -> bool {
    forall|i: int, j: int|
        #![trigger es[i], es[j]]
        0 <= i < es.len() && 0 <= j < es.len() && i != j ==> es[i].0 != es[j].0
}

/// The table once `k` is bound to `t`: its entry replaced where it has one,
/// else appended.
pub open spec fn inserted(es: Seq<(Seq<char>, KeyTrie)>, k: Seq<char>, t: KeyTrie) -> Seq<
    (Seq<char>, KeyTrie),
> {
    if exists|j: int| 0 <= j < es.len() && es[j].0 == k {
        es.update(choose|j: int| 0 <= j < es.len() && es[j].0 == k, (k, t))
    } else {
        es.push((k, t))
    }
}

impl KeyMap {
    pub open spec fn entries(&self) -> Seq<(Seq<char>, KeyTrie)> {
        entries_of(self.bindings@)
    }

    /// A table holds each label once.
    pub open spec fn wf(&self) -> bool {
        distinct_keys(self.entries())
    }

    pub fn new() -> (r: KeyMap)
        ensures
            r.wf(),
            r.entries() == Seq::<(Seq<char>, KeyTrie)>::empty(),
    {
        KeyMap { bindings: Vec::new() }
    }

    /// The binding of `key`, if the table has one.
    pub fn get(&self, key: &String) -> (r: Option<&KeyAction>)
        ensures
            r is None <==> lookup(self.entries(), key@) is None,
            r is Some ==> lookup(self.entries(), key@) == Some(trie_of(*r->0)),
    {
        let n = self.bindings.len();
        let ghost es = self.entries();
        proof {
            lemma_entries_index(self.bindings@);
            assert(es.skip(0) =~= es);
        }
        let mut i: usize = 0;
        while i < n
            invariant
                n == self.bindings@.len(),
                es == self.entries(),
                es.len() == n,
                forall|j: int|
                    0 <= j < n ==> #[trigger] es[j] == (
                    self.bindings@[j].key@,
                    trie_of(self.bindings@[j].action),
                ),
                i <= n,
                lookup(es, key@) == lookup(es.skip(i as int), key@),
            decreases n - i,
        {
            if self.bindings[i].key == *key {
                assert(es.skip(i as int)[0] == es[i as int]);
                return Some(&self.bindings[i].action);
            }
            proof {
                lemma_lookup_skip(es, i as int, key@);
            }
            i = i + 1;
        }
        assert(es.skip(i as int).len() == 0);
        None
    }

    /// Binds `key` to `action`, in place of any binding it had; the other
    /// labels keep their bindings.
    pub fn insert(&mut self, key: String, action: KeyAction)
        requires
            old(self).wf(),
        ensures
            final(self).wf(),
            final(self).entries() == inserted(old(self).entries(), key@, trie_of(action)),
            lookup(final(self).entries(), key@) == Some(trie_of(action)),
            forall|q: Seq<char>|
                q != key@ ==> #[trigger] lookup(final(self).entries(), q) == lookup(
                    old(self).entries(),
                    q,
                ),
    {
        let ghost es = self.entries();
        let ghost t = trie_of(action);
        proof {
            lemma_entries_index(self.bindings@);
        }
        let n = self.bindings.len();
        let mut j: usize = 0;
        while j < n
            invariant
                n == self.bindings@.len(),
                es == self.entries(),
                es.len() == n,
                forall|i: int|
                    0 <= i < n ==> #[trigger] es[i] == (
                        self.bindings@[i].key@,
                        trie_of(self.bindings@[i].action),
                    ),
                j <= n,
                forall|i: int| 0 <= i < j ==> es[i].0 != key@,
            ensures
                j <= n,
                forall|i: int| 0 <= i < j ==> es[i].0 != key@,
                j < n ==> es[j as int].0 == key@,
            decreases n - j,
        {
            if self.bindings[j].key == key {
                break;
            }
            j = j + 1;
        }
        let ghost bs = self.bindings@;
        let b = Binding { key, action };
        if j < n {
            self.bindings.set(j, b);
            proof {
                lemma_entries_index(self.bindings@);
                assert(self.entries() =~= es.update(j as int, (b.key@, t)));
                let jj = choose|jj: int| 0 <= jj < es.len() && es[jj].0 == b.key@;
                assert(es[jj].0 == es[j as int].0);
                assert(jj == j);
                assert(distinct_keys(self.entries())) by {
                    let e2 = self.entries();
                    assert forall|x: int, y: int|
                        0 <= x < e2.len() && 0 <= y < e2.len() && x != y implies e2[x].0
                        != e2[y].0 by {
                        assert(es[x].0 != es[y].0);
                    }
                }
                assert forall|q: Seq<char>| true implies lookup(self.entries(), q) == if q == b.key@ {
                    Some(t)
                } else {
                    lookup(es, q)
                } by {
                    lemma_lookup_replace(es, j as int, b.key@, t, q);
                }
            }
        } else {
            self.bindings.push(b);
            proof {
                lemma_entries_push(bs, b);
                assert(!(exists|jj: int| 0 <= jj < es.len() && es[jj].0 == b.key@));
                assert(self.entries() =~= es.push((b.key@, t)));
                assert(distinct_keys(self.entries())) by {
                    let e2 = self.entries();
                    assert forall|x: int, y: int|
                        0 <= x < e2.len() && 0 <= y < e2.len() && x != y implies e2[x].0
                        != e2[y].0 by {
                        if x < es.len() && y < es.len() {
                            assert(es[x].0 != es[y].0);
                        }
                    }
                }
                assert forall|q: Seq<char>| true implies lookup(self.entries(), q) == if q == b.key@ {
                    Some(t)
                } else {
                    lookup(es, q)
                } by {
                    lemma_lookup_append(es, b.key@, t, q);
                }
            }
        }
    }

    /// A copy with the same entries.
    pub fn duplicate(&self) -> (r: KeyMap)
        ensures
            r.entries() == self.entries(),
        decreases self, 0int,
    {
        let n = self.bindings.len();
        let mut out: Vec<Binding> = Vec::new();
        let mut i: usize = 0;
        while i < n
            invariant
                n == self.bindings@.len(),
                i <= n,
                entries_of(out@) == entries_of(self.bindings@.take(i as int)),
            decreases n - i,
        {
            let b = &self.bindings[i];
            let a = b.action.duplicate();
            let nb = Binding { key: b.key.clone(), action: a };
            proof {
                lemma_entries_push(out@, nb);
                lemma_entries_push(self.bindings@.take(i as int), self.bindings@[i as int]);
                assert(self.bindings@.take(i as int).push(self.bindings@[i as int])
                    =~= self.bindings@.take(i as int + 1));
            }
            out.push(nb);
            i = i + 1;
        }
        assert(self.bindings@.take(n as int) =~= self.bindings@);
        KeyMap { bindings: out }
    }
}

impl KeyAction {
    /// A copy with the same trie.
    pub fn duplicate(&self) -> (r: KeyAction)
        ensures
            trie_of(r) == trie_of(*self),
        decreases self, 1int,
    {
        match self {
            KeyAction::Simple(a) => KeyAction::Simple(*a),
            KeyAction::Multiple(v) => {
                let mut out: Vec<Action> = Vec::new();
                let mut i: usize = 0;
                while i < v.len()
                    invariant
                        i <= v@.len(),
                        out@ == v@.take(i as int),
                    decreases v@.len() - i,
                {
                    out.push(v[i]);
                    i = i + 1;
                    assert(out@ =~= v@.take(i as int));
                }
                assert(v@.take(i as int) =~= v@);
                KeyAction::Multiple(out)
            },
            KeyAction::Complex(m) => KeyAction::Complex(m.duplicate()),
        }
    }
}

fn flatten_into(actions: &mut Vec<Action>, action: &KeyAction)
    ensures
        final(actions)@ == old(actions)@ + flat(trie_of(*action)),
    decreases action, 1int,
{
    match action {
        KeyAction::Simple(a) => {
            actions.push(*a);
        },
        KeyAction::Multiple(v) => {
            let ghost start = actions@;
            let mut i: usize = 0;
            while i < v.len()
                invariant
                    i <= v@.len(),
                    actions@ == start + v@.take(i as int),
                decreases v@.len() - i,
            {
                actions.push(v[i]);
                i = i + 1;
                assert(actions@ =~= start + v@.take(i as int));
            }
            assert(v@.take(i as int) =~= v@);
        },
        KeyAction::Complex(m) => flatten_map(actions, m),
    }
}

fn flatten_map(actions: &mut Vec<Action>, m: &KeyMap)
    ensures
        final(actions)@ == old(actions)@ + flat_entries(m.entries()),
    decreases m, 0int,
{
    let ghost start = actions@;
    let n = m.bindings.len();
    let mut i: usize = 0;
    assert(m.bindings@.take(0) =~= Seq::<Binding>::empty());
    assert(start + flat_entries(entries_of(m.bindings@.take(0))) =~= start);
    while i < n
        invariant
            n == m.bindings@.len(),
            i <= n,
            actions@ == start + flat_entries(entries_of(m.bindings@.take(i as int))),
        decreases n - i,
    {
        flatten_into(actions, &m.bindings[i].action);
        proof {
            let t = m.bindings@.take(i as int);
            let b = m.bindings@[i as int];
            lemma_entries_push(t, b);
            assert(t.push(b) =~= m.bindings@.take(i as int + 1));
            let es = entries_of(t).push((b.key@, trie_of(b.action)));
            assert(es.drop_last() =~= entries_of(t));
            assert(actions@ =~= start + flat_entries(es));
        }
        i = i + 1;
    }
    assert(m.bindings@.take(n as int) =~= m.bindings@);
}

/// Flattening a chord table fires every action of every entry.
pub proof fn lemma_flatten_all_leaves(es: Seq<(Seq<char>, KeyTrie)>)
    ensures
        forall|i: int, j: int|
            0 <= i < es.len() && 0 <= j < flat(es[i].1).len() ==> flat_entries(es).contains(
                #[trigger] flat(es[i].1)[j],
            ),
    decreases es.len(),
{
    if es.len() > 0 {
        let init = es.drop_last();
        lemma_flatten_all_leaves(init);
        let left = flat_entries(init);
        let right = flat(es.last().1);
        assert forall|i: int, j: int|
            0 <= i < es.len() && 0 <= j < flat(es[i].1).len() implies flat_entries(es).contains(
            #[trigger] flat(es[i].1)[j],
        ) by {
            if i < es.len() - 1 {
                assert(init[i] == es[i]);
                let k = choose|k: int| 0 <= k < left.len() && left[k] == flat(es[i].1)[j];
                assert((left + right)[k] == left[k]);
            } else {
                assert((left + right)[left.len() + j] == right[j]);
            }
        }
    }
}

/// Reduces a resolved binding to the list of atomic actions it stands for,
/// appended to `actions` in order.
pub fn flatten_actions(actions: &mut Vec<Action>, action: KeyAction)
    ensures
        final(actions)@ == old(actions)@ + flat(trie_of(action)),
{
    flatten_into(actions, &action);
}

} // verus!
