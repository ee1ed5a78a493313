//! The command dispatch engine: actions, key bindings, command registries
//! (pools), and the arena of registries with one active id.
//!
//! A registry maps a `(key, modifier-set)` pair to a command and keeps a
//! parallel ordered list of display labels for the help panel. Registries are
//! built once and are immutable afterwards; switching menus is a
//! bounds-checked index write into the pool array.

use vstd::prelude::*;
use vstd::string::*;

use crate::screen::ScreenLine;
use crate::text::spaces;
use crate::text::spaces_string;
use crate::CONTROLS_HEIGHT;
use crate::WINDOW_HEIGHT;

verus! {

/// No modifier keys held.
pub const MOD_NONE: u8 = 0;

/// The shift modifier bit.
pub const MOD_SHIFT: u8 = 1;

/// The control modifier bit.
pub const MOD_CONTROL: u8 = 2;

/// The alt modifier bit.
pub const MOD_ALT: u8 = 4;

/// Width of one column of the help panel.
pub const HELP_COL_WIDTH: u16 = 16;

/// Number of visible binding rows in one help-panel column.
pub const HELP_ROWS: u16 = (CONTROLS_HEIGHT - 1) / 2;

/// Upper bound on help entries per registry, so that every help-panel
/// column position fits in a `u16` screen coordinate.
pub const MAX_HELP_ENTRIES: usize = 4096;

/// What a command does to the game: one tagged variant per operation, so the
/// single mutable game state has exactly one writer per reaction.
#[derive(Copy, Clone, PartialEq, Eq, Structural, Debug)]
pub enum Action {
    /// Shift the building viewport one row up.
    ScrollUp,
    /// Shift the building viewport one row down, saturating at the ground.
    ScrollDown,
    /// Switch to the build menu.
    EnterBuildMenu,
    /// Buy an apartment floor.
    BuildApartment,
    /// Buy a retail floor.
    BuildRetail,
    /// Buy a food-court floor.
    BuildFood,
    /// Leave the build menu without buying.
    CancelBuild,
    /// Discard the whole game state and start over.
    Retry,
    /// Stop the game loop.
    Exit,
}

/// An action together with its repeat-trigger flag: whether it fires on
/// key-repeat events or only on the initial press.
#[derive(Copy, Clone, PartialEq, Eq, Structural, Debug)]
pub struct Command {
    op: Action,
    is_triggered_on_repeat: bool,
}

impl Command {
    /// The action this command performs.
    pub closed spec fn spec_op(self) -> Action {
        self.op
    }

    /// Whether the command also fires on key-repeat events.
    pub closed spec fn spec_triggered_on_repeat(self) -> bool {
        self.is_triggered_on_repeat
    }

    /// A command that fires only on the initial key press.
    pub fn new(op: Action) -> (r: Command)
        ensures
            r.spec_op() == op,
            !r.spec_triggered_on_repeat(),
    {
        Command { op, is_triggered_on_repeat: false }
    }

    /// A command with an explicit repeat-trigger flag.
    pub fn with_triggered_on_repeat(op: Action, is_triggered_on_repeat: bool) -> (r: Command)
        ensures
            r.spec_op() == op,
            r.spec_triggered_on_repeat() == is_triggered_on_repeat,
    {
        Command { op, is_triggered_on_repeat }
    }

    /// Whether the command also fires on key-repeat events.
    pub fn is_triggered_on_repeat(&self) -> (r: bool)
        ensures
            r == self.spec_triggered_on_repeat(),
    {
        self.is_triggered_on_repeat
    }

    /// The action this command performs.
    pub fn op(&self) -> (r: Action)
        ensures
            r == self.spec_op(),
    {
        self.op
    }
}

/// The key half of an input event, reduced to what the dispatch logic reads:
/// a printable character, or anything else.
#[derive(Copy, Clone, PartialEq, Eq, Structural, Debug)]
pub enum KeyCode {
    Char(char),
    Other,
}

/// Whether a key event is the initial press, an auto-repeat, or a release.
#[derive(Copy, Clone, PartialEq, Eq, Structural, Debug)]
pub enum KeyEventKind {
    Press,
    Repeat,
    Release,
}

/// One keyboard input event: code, modifier bits, and kind.
#[derive(Copy, Clone, PartialEq, Eq, Structural, Debug)]
pub struct KeyEvent {
    pub code: KeyCode,
    pub modifiers: u8,
    pub kind: KeyEventKind,
}

/// One registered key binding.
#[derive(Copy, Clone, PartialEq, Eq, Structural, Debug)]
pub struct Binding {
    pub key: char,
    pub mods: u8,
    pub command: Command,
}

/// The help label registered together with key `k`: the key right-aligned in
/// a five-character field, a colon, and the description.
pub open spec fn spec_label(k: char, d: Seq<char>) -> Seq<char> {
    spaces(4) + seq![k] + ": "@ + d
}

/// The command bound to `(key, mods)` in `s`: the first matching binding.
pub open spec fn lookup_seq(s: Seq<Binding>, key: char, mods: u8) -> Option<Command>
    decreases s.len(),
{
    if s.len() == 0 {
        None
    } else if s[0].key == key && s[0].mods == mods {
        Some(s[0].command)
    } else {
        lookup_seq(s.drop_first(), key, mods)
    }
}

/// No two bindings share a `(key, mods)` pair.
pub open spec fn unique_keys(s: Seq<Binding>) -> bool {
    forall|i: int, j: int|
        0 <= i < j < s.len() ==> !(s[i].key == s[j].key && s[i].mods == s[j].mods)
}

/// If `s[i]` is the first binding matching `(key, mods)`, the lookup finds it.
proof fn lemma_lookup_first(s: Seq<Binding>, key: char, mods: u8, i: int)
    requires
        0 <= i < s.len(),
        s[i].key == key && s[i].mods == mods,
        forall|j: int| 0 <= j < i ==> !(s[j].key == key && s[j].mods == mods),
    ensures
        lookup_seq(s, key, mods) == Some(s[i].command),
    decreases i,
{
    if i > 0 {
        lemma_lookup_first(s.drop_first(), key, mods, i - 1);
    }
}

/// If no binding matches `(key, mods)`, the lookup returns `None`.
proof fn lemma_lookup_none(s: Seq<Binding>, key: char, mods: u8)
    requires
        forall|j: int| 0 <= j < s.len() ==> !(s[j].key == key && s[j].mods == mods),
    ensures
        lookup_seq(s, key, mods) is None,
    decreases s.len(),
{
    if s.len() > 0 {
        lemma_lookup_none(s.drop_first(), key, mods);
    }
}

/// A lookup hits if and only if some binding matches.
pub proof fn lemma_lookup_some_iff(s: Seq<Binding>, key: char, mods: u8)
    ensures
        lookup_seq(s, key, mods) is Some <==> exists|i: int|
            0 <= i < s.len() && s[i].key == key && s[i].mods == mods,
    decreases s.len(),
{
    if s.len() > 0 {
        lemma_lookup_some_iff(s.drop_first(), key, mods);
        if s[0].key == key && s[0].mods == mods {
            assert(lookup_seq(s, key, mods) is Some);
        } else {
            assert(lookup_seq(s, key, mods) == lookup_seq(s.drop_first(), key, mods));
            if lookup_seq(s.drop_first(), key, mods) is Some {
                let i = choose|i: int|
                    0 <= i < s.drop_first().len() && s.drop_first()[i].key == key
                        && s.drop_first()[i].mods == mods;
                assert(s.drop_first()[i] == s[i + 1]);
                assert(s[i + 1].key == key && s[i + 1].mods == mods);
            } else {
                assert forall|i: int|
                    0 <= i < s.len() implies !(s[i].key == key && s[i].mods == mods) by {
                    if i > 0 {
                        assert(s.drop_first()[i - 1] == s[i]);
                    }
                }
            }
        }
    }
}

/// Replacing the command of the binding at `i` (same key, same modifiers)
/// changes the lookup only for that pair.
proof fn lemma_lookup_update(s: Seq<Binding>, i: int, b: Binding)
    requires
        0 <= i < s.len(),
        s[i].key == b.key && s[i].mods == b.mods,
        forall|j: int| 0 <= j < i ==> !(s[j].key == b.key && s[j].mods == b.mods),
    ensures
        lookup_seq(s.update(i, b), b.key, b.mods) == Some(b.command),
        forall|k: char, m: u8|
            !(k == b.key && m == b.mods) ==> lookup_seq(s.update(i, b), k, m) == lookup_seq(
                s,
                k,
                m,
            ),
    decreases i,
{
    let t = s.update(i, b);
    if i == 0 {
        assert(t[0] == b);
        assert(t.drop_first() =~= s.drop_first());
        assert(lookup_seq(t, b.key, b.mods) == Some(b.command));
        assert forall|k: char, m: u8| !(k == b.key && m == b.mods) implies lookup_seq(t, k, m)
            == lookup_seq(s, k, m) by {
            assert(lookup_seq(t, k, m) == lookup_seq(t.drop_first(), k, m));
            assert(lookup_seq(s, k, m) == lookup_seq(s.drop_first(), k, m));
        }
    } else {
        lemma_lookup_update(s.drop_first(), i - 1, b);
        assert(t.drop_first() =~= s.drop_first().update(i - 1, b));
        assert(t[0] == s[0]);
        assert(!(s[0].key == b.key && s[0].mods == b.mods));
        assert(lookup_seq(t, b.key, b.mods) == lookup_seq(t.drop_first(), b.key, b.mods));
        assert(lookup_seq(t, b.key, b.mods) == Some(b.command));
        assert forall|k: char, m: u8| !(k == b.key && m == b.mods) implies lookup_seq(t, k, m)
            == lookup_seq(s, k, m) by {
            if s[0].key == k && s[0].mods == m {
                assert(lookup_seq(t, k, m) == Some(s[0].command));
                assert(lookup_seq(s, k, m) == Some(s[0].command));
            } else {
                assert(lookup_seq(t, k, m) == lookup_seq(t.drop_first(), k, m));
                assert(lookup_seq(s, k, m) == lookup_seq(s.drop_first(), k, m));
            }
        }
    }
}

/// Appending a binding for a pair not yet bound adds exactly that entry.
proof fn lemma_lookup_push(s: Seq<Binding>, b: Binding)
    requires
        forall|j: int| 0 <= j < s.len() ==> !(s[j].key == b.key && s[j].mods == b.mods),
    ensures
        lookup_seq(s.push(b), b.key, b.mods) == Some(b.command),
        forall|k: char, m: u8|
            !(k == b.key && m == b.mods) ==> lookup_seq(s.push(b), k, m) == lookup_seq(s, k, m),
    decreases s.len(),
{
    let t = s.push(b);
    if s.len() == 0 {
        assert(t[0] == b);
        assert(lookup_seq(t, b.key, b.mods) == Some(b.command));
        assert forall|k: char, m: u8| !(k == b.key && m == b.mods) implies lookup_seq(t, k, m)
            == lookup_seq(s, k, m) by {
            assert(lookup_seq(t, k, m) == lookup_seq(t.drop_first(), k, m));
            assert(t.drop_first() =~= Seq::<Binding>::empty());
            assert(lookup_seq(t.drop_first(), k, m) is None);
            assert(lookup_seq(s, k, m) is None);
        }
    } else {
        lemma_lookup_push(s.drop_first(), b);
        assert(t.drop_first() =~= s.drop_first().push(b));
        assert(t[0] == s[0]);
        assert(!(s[0].key == b.key && s[0].mods == b.mods));
        assert(lookup_seq(t, b.key, b.mods) == lookup_seq(t.drop_first(), b.key, b.mods));
        assert(lookup_seq(t, b.key, b.mods) == Some(b.command));
        assert forall|k: char, m: u8| !(k == b.key && m == b.mods) implies lookup_seq(t, k, m)
            == lookup_seq(s, k, m) by {
            if s[0].key == k && s[0].mods == m {
                assert(lookup_seq(t, k, m) == Some(s[0].command));
                assert(lookup_seq(s, k, m) == Some(s[0].command));
            } else {
                assert(lookup_seq(t, k, m) == lookup_seq(t.drop_first(), k, m));
                assert(lookup_seq(s, k, m) == lookup_seq(s.drop_first(), k, m));
            }
        }
    }
}

/// A registry: the map from `(key, modifiers)` to commands, and the parallel
/// ordered list of help-panel labels.
pub struct CommandPool {
    bindings: Vec<Binding>,
    descriptions: Vec<String>,
}

impl CommandPool {
    /// Keys are unique and the help list fits the screen arithmetic.
    pub closed spec fn wf(self) -> bool {
        unique_keys(self.bindings@) && self.descriptions@.len() <= MAX_HELP_ENTRIES
    }

    /// The bindings, in registration order.
    pub closed spec fn spec_bindings(self) -> Seq<Binding> {
        self.bindings@
    }

    /// The help labels, in registration order.
    pub closed spec fn spec_descriptions(self) -> Seq<Seq<char>> {
        self.descriptions@.map_values(|s: String| s@)
    }

    /// The command registered for `(key, mods)`, if any.
    pub open spec fn spec_get(self, key: char, mods: u8) -> Option<Command> {
        lookup_seq(self.spec_bindings(), key, mods)
    }

    /// Index of the binding matching `(key, mods)`, if any.
    fn find_binding(&self, key: char, mods: u8) -> (r: Option<usize>)
        ensures
            match r {
                Some(i) => i < self.spec_bindings().len() && self.spec_bindings()[i as int].key
                    == key && self.spec_bindings()[i as int].mods == mods && forall|j: int|
                    0 <= j < i ==> !(self.spec_bindings()[j].key == key
                        && self.spec_bindings()[j].mods == mods),
                None => forall|j: int|
                    0 <= j < self.spec_bindings().len() ==> !(self.spec_bindings()[j].key == key
                        && self.spec_bindings()[j].mods == mods),
            },
    {
        let mut i: usize = 0;
        while i < self.bindings.len()
            invariant
                i <= self.bindings@.len(),
                forall|j: int|
                    0 <= j < i ==> !(self.bindings@[j].key == key && self.bindings@[j].mods
                        == mods),
            decreases self.bindings@.len() - i,
        {
            let b = &self.bindings[i];
            if b.key == key && b.mods == mods {
                return Some(i);
            }
            i = i + 1;
        }
        None
    }

    /// The command bound to the pressed key, or `None` for an unbound key.
    /// Non-character keys are never bound.
    pub fn get_command(&self, key_code: KeyCode, key_modifiers: u8) -> (r: Option<Command>)
        ensures
            r == match key_code {
                KeyCode::Char(c) => self.spec_get(c, key_modifiers),
                KeyCode::Other => None::<Command>,
            },
    {
        match key_code {
            KeyCode::Char(c) => {
                match self.find_binding(c, key_modifiers) {
                    Some(i) => {
                        proof {
                            lemma_lookup_first(self.bindings@, c, key_modifiers, i as int);
                        }
                        Some(self.bindings[i].command)
                    },
                    None => {
                        proof {
                            lemma_lookup_none(self.bindings@, c, key_modifiers);
                        }
                        None
                    },
                }
            },
            KeyCode::Other => None,
        }
    }

    /// The help-panel lines: label `i` goes to column `i / HELP_ROWS` and row
    /// `i % HELP_ROWS` of the reserved bottom band, column-major.
    pub fn draw(&self) -> (r: Vec<ScreenLine>)
        requires
            self.wf(),
        ensures
            spec_help_panel(*self, r@),
    {
        let mut r: Vec<ScreenLine> = Vec::new();
        let mut i: usize = 0;
        while i < self.descriptions.len()
            invariant
                self.wf(),
                i <= self.descriptions@.len(),
                r@.len() == i,
                forall|k: int|
                    0 <= k < i ==> {
                        &&& (#[trigger] r@[k]).col == 1 + (k / (HELP_ROWS as int)) * (
                        HELP_COL_WIDTH as int)
                        &&& r@[k].row == WINDOW_HEIGHT - CONTROLS_HEIGHT + 1 + 2 * (k % (
                        HELP_ROWS as int))
                        &&& r@[k].text@ == self.spec_descriptions()[k]
                        &&& r@[k].colors == crate::screen::spec_plain_colors()
                    },
            decreases self.descriptions@.len() - i,
        {
            let (col, row) = iter_cols_rows(i);
            let line = ScreenLine {
                col: 1 + col * HELP_COL_WIDTH,
                row: WINDOW_HEIGHT - CONTROLS_HEIGHT + 1 + 2 * row,
                colors: crate::screen::plain_colors(),
                text: self.descriptions[i].clone(),
            };
            r.push(line);
            i = i + 1;
        }
        r
    }
}

/// `r` is the rendered help panel of `pool`: one line per label, placed
/// column-major into the reserved bottom band, every other row, in the
/// default color pair.
pub open spec fn spec_help_panel(pool: CommandPool, r: Seq<ScreenLine>) -> bool {
    &&& r.len() == pool.spec_descriptions().len()
    &&& forall|i: int|
        0 <= i < r.len() ==> {
            &&& (#[trigger] r[i]).col == 1 + (i / (HELP_ROWS as int)) * (HELP_COL_WIDTH as int)
            &&& r[i].row == WINDOW_HEIGHT - CONTROLS_HEIGHT + 1 + 2 * (i % (HELP_ROWS as int))
            &&& r[i].text@ == pool.spec_descriptions()[i]
            &&& r[i].colors == crate::screen::spec_plain_colors()
        }
}

/// `(key, mods)` is bound in `pool` to a command with action `op` and
/// repeat-trigger flag `rep`.
pub open spec fn pool_binds(pool: CommandPool, key: char, mods: u8, op: Action, rep: bool) -> bool {
    match pool.spec_get(key, mods) {
        Some(c) => c.spec_op() == op && c.spec_triggered_on_repeat() == rep,
        None => false,
    }
}

/// The help-panel cell for binding index `i`: column-major placement with
/// `HELP_ROWS` rows per column.
pub fn iter_cols_rows(i: usize) -> (r: (u16, u16))
    requires
        i < MAX_HELP_ENTRIES,
    ensures
        r.0 == i as int / (HELP_ROWS as int),
        r.1 == i as int % (HELP_ROWS as int),
{
    let rows = HELP_ROWS as usize;
    ((i / rows) as u16, (i % rows) as u16)
}

/// Accumulates bindings and labels, then hands out the finished registry.
pub struct CommandPoolBuilder {
    pool: CommandPool,
}

impl CommandPoolBuilder {
    /// The registry as built so far.
    pub closed spec fn spec_pool(self) -> CommandPool {
        self.pool
    }

    /// An empty registry under construction.
    pub fn new() -> (r: CommandPoolBuilder)
        ensures
            r.spec_pool().wf(),
            r.spec_pool().spec_bindings() == Seq::<Binding>::empty(),
            r.spec_pool().spec_descriptions() == Seq::<Seq<char>>::empty(),
    {
        let b = CommandPoolBuilder { pool: CommandPool { bindings: Vec::new(), descriptions: Vec::new() } };
        proof {
            assert(b.pool.descriptions@.map_values(|s: String| s@) =~= Seq::<Seq<char>>::empty());
        }
        b
    }

    /// Binds `key` (a single lowercase letter, pressed without modifiers) to
    /// `command` and appends a help label `"    k: description"`. Binding an
    /// already-bound key silently overwrites its command; the label is
    /// appended either way.
    pub fn on_letter_press(self, key: char, description: &str, command: Command) -> (r:
        CommandPoolBuilder)
        requires
            'a' <= key <= 'z',
            self.spec_pool().wf(),
            self.spec_pool().spec_descriptions().len() < MAX_HELP_ENTRIES,
        ensures
            r.spec_pool().wf(),
            r.spec_pool().spec_get(key, MOD_NONE) == Some(command),
            forall|k: char, m: u8|
                !(k == key && m == MOD_NONE) ==> r.spec_pool().spec_get(k, m)
                    == self.spec_pool().spec_get(k, m),
            r.spec_pool().spec_descriptions() == self.spec_pool().spec_descriptions().push(
                spec_label(key, description@),
            ),
    {
        let mut pool = self.pool;
        let b = Binding { key, mods: MOD_NONE, command };
        let found = pool.find_binding(key, MOD_NONE);
        match found {
            Some(i) => {
                proof {
                    lemma_lookup_update(pool.bindings@, i as int, b);
                }
                pool.bindings[i] = b;
                proof {
                    assert(unique_keys(pool.bindings@));
                }
            },
            None => {
                proof {
                    lemma_lookup_push(pool.bindings@, b);
                }
                pool.bindings.push(b);
            },
        }
        let mut label = spaces_string(4);
        label.push(key);
        label.append(": ");
        label.append(description);
        proof {
            reveal_strlit(": ");
            assert(label@ =~= spaces(4) + seq![key] + ": "@ + description@);
        }
        pool.descriptions.push(label);
        let r = CommandPoolBuilder { pool };
        proof {
            assert(r.pool.descriptions@.map_values(|s: String| s@)
                =~= self.pool.descriptions@.map_values(|s: String| s@).push(
                spaces(4) + seq![key] + ": "@ + description@,
            ));
        }
        r
    }

    /// The finished registry.
    pub fn build(self) -> (r: CommandPool)
        ensures
            r == self.spec_pool(),
    {
        self.pool
    }
}

/// An index into the fixed array of registries. Exactly one is active.
#[derive(Copy, Clone, PartialEq, Eq, Structural, PartialOrd, Ord, Debug, Hash)]
pub struct CommandPoolId(usize);

impl CommandPoolId {
    /// The index this id selects.
    pub closed spec fn spec_idx(self) -> int {
        self.0 as int
    }
}

/// The fixed array of registries, built once per (re)initialization, plus the
/// id of the active one.
pub struct CommandPoolArray {
    pools: Vec<CommandPool>,
    id: CommandPoolId,
}

impl CommandPoolArray {
    /// The registries, in the order they were added.
    pub closed spec fn spec_pools(self) -> Seq<CommandPool> {
        self.pools@
    }

    /// The active id.
    pub closed spec fn spec_id(self) -> CommandPoolId {
        self.id
    }

    /// The active id is in bounds and every registry is well formed.
    pub open spec fn wf(self) -> bool {
        &&& 0 <= self.spec_id().spec_idx() < self.spec_pools().len()
        &&& forall|i: int| 0 <= i < self.spec_pools().len() ==> (#[trigger] self.spec_pools()[i]).wf()
    }

    /// The active registry, abstractly.
    pub open spec fn spec_cur(self) -> CommandPool {
        self.spec_pools()[self.spec_id().spec_idx()]
    }

    /// The active id.
    pub fn id(&self) -> (r: CommandPoolId)
        ensures
            r == self.spec_id(),
    {
        self.id
    }

    /// Activates the registry `id` selects. The registries themselves are
    /// never touched; an out-of-bounds id is a programmer error and is ruled
    /// out by the precondition.
    pub fn set_id(&mut self, id: CommandPoolId)
        requires
            0 <= id.spec_idx() < old(self).spec_pools().len(),
        ensures
            final(self).spec_id() == id,
            final(self).spec_pools() == old(self).spec_pools(),
    {
        self.id = id;
    }

    /// The active registry.
    pub fn cur(&self) -> (r: &CommandPool)
        requires
            0 <= self.spec_id().spec_idx() < self.spec_pools().len(),
        ensures
            *r == self.spec_cur(),
    {
        &self.pools[self.id.0]
    }
}

/// Accumulates registries, then hands out the finished array with its initial
/// active id.
pub struct CommandPoolArrayBuilder {
    pools: Vec<CommandPool>,
}

impl CommandPoolArrayBuilder {
    /// The registries added so far.
    pub closed spec fn spec_pools(self) -> Seq<CommandPool> {
        self.pools@
    }

    /// An empty array under construction.
    pub fn new() -> (r: CommandPoolArrayBuilder)
        ensures
            r.spec_pools() == Seq::<CommandPool>::empty(),
    {
        CommandPoolArrayBuilder { pools: Vec::new() }
    }

    /// Adds a registry and returns the id that will select it.
    pub fn add_pool(&mut self, pool: CommandPool) -> (r: CommandPoolId)
        ensures
            final(self).spec_pools() == old(self).spec_pools().push(pool),
            r.spec_idx() == old(self).spec_pools().len(),
    {
        self.pools.push(pool);
        CommandPoolId(self.pools.len() - 1)
    }

    /// The finished array, with `id` active. An out-of-bounds id is a
    /// programmer error and is ruled out by the precondition.
    pub fn with_initial_pool(self, id: CommandPoolId) -> (r: CommandPoolArray)
        requires
            0 <= id.spec_idx() < self.spec_pools().len(),
        ensures
            r.spec_pools() == self.spec_pools(),
            r.spec_id() == id,
    {
        CommandPoolArray { pools: self.pools, id }
    }
}

} // verus!
