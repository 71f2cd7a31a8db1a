//! The binding table: which action a key press stands for in a given mode.

use crate::app::Mode;
use crate::key::{KeyCode, KeyEvent, KeyModifiers};
use std::collections::HashMap;
use vstd::prelude::*;

verus! {

broadcast use vstd::std_specs::hash::group_hash_axioms;

/// What a key press can ask the application to do.
#[derive(Clone, Copy, Debug, PartialEq, Eq, Hash, Structural)]
pub enum Action {
    Quit,
    Increment,
    Decrement,
    Reset,
    EnterInsertMode,
    EnterCommandMode,
    EnterNormalMode,
    InsertChar(char),
    DeleteChar,
    ExecuteCommand,
    ShowHelp,
}

/// A binding table as a mathematical map from key press and mode to action.
pub type Bindings = Map<(KeyEvent, Mode), Action>;

/// Whether a key press types a character: a character key with no modifier
/// or with shift alone.
pub open spec fn types_char(key: KeyEvent) -> bool {
    key.code is Char && (key.modifiers == KeyModifiers::none() || key.modifiers
        == KeyModifiers::shift())
}

/// The action that a key press resolves to: the action bound to it in this
/// mode if there is one; else, in insert mode, the insertion of the character
/// that the key press types; else nothing.
pub open spec fn resolve(table: Bindings, key: KeyEvent, mode: Mode) -> Option<Action> {
    if table.contains_key((key, mode)) {
        Some(table[(key, mode)])
    } else if mode == Mode::Insert && types_char(key) {
        Some(Action::InsertChar(key.code->Char_0))
    } else {
        None
    }
}

/// The number that stands for a key in the table: a character's code point,
/// and above all code points the function keys and the named keys.
spec fn code_ordinal(code: KeyCode) -> nat {
    match code {
        KeyCode::Char(c) => c as nat,
        KeyCode::F(n) => (0x110000 + n) as nat,
        KeyCode::Backspace => 0x110100,
        KeyCode::Enter => 0x110101,
        KeyCode::Left => 0x110102,
        KeyCode::Right => 0x110103,
        KeyCode::Up => 0x110104,
        KeyCode::Down => 0x110105,
        KeyCode::Home => 0x110106,
        KeyCode::End => 0x110107,
        KeyCode::PageUp => 0x110108,
        KeyCode::PageDown => 0x110109,
        KeyCode::Tab => 0x11010a,
        KeyCode::BackTab => 0x11010b,
        KeyCode::Delete => 0x11010c,
        KeyCode::Insert => 0x11010d,
        KeyCode::Null => 0x11010e,
        KeyCode::Esc => 0x11010f,
    }
}

/// The number that stands for a mode in the table.
spec fn mode_ordinal(mode: Mode) -> nat {
    match mode {
        Mode::Normal => 0,
        Mode::Insert => 1,
        Mode::Command => 2,
    }
}

/// The number under which the table stores what is bound to a key press in a
/// mode.
spec fn slot(key: KeyEvent, mode: Mode) -> nat {
    ((code_ordinal(key.code) * 256 + key.modifiers.bits) * 4 + mode_ordinal(mode)) as nat
}

/// Different pairs of key press and mode have different slots.
proof fn lemma_slot_injective(k1: KeyEvent, m1: Mode, k2: KeyEvent, m2: Mode)
    requires
        slot(k1, m1) == slot(k2, m2),
    ensures
        k1 == k2,
        m1 == m2,
{
}

fn code_ordinal_of(code: KeyCode) -> (n: u64)
    ensures
        n == code_ordinal(code),
        n < 0x200000,
{
    match code {
        KeyCode::Char(c) => {
            let point: u32 = c as u32;
            point as u64
        },
        KeyCode::F(n) => 0x110000 + (n as u64),
        KeyCode::Backspace => 0x110100,
        KeyCode::Enter => 0x110101,
        KeyCode::Left => 0x110102,
        KeyCode::Right => 0x110103,
        KeyCode::Up => 0x110104,
        KeyCode::Down => 0x110105,
        KeyCode::Home => 0x110106,
        KeyCode::End => 0x110107,
        KeyCode::PageUp => 0x110108,
        KeyCode::PageDown => 0x110109,
        KeyCode::Tab => 0x11010a,
        KeyCode::BackTab => 0x11010b,
        KeyCode::Delete => 0x11010c,
        KeyCode::Insert => 0x11010d,
        KeyCode::Null => 0x11010e,
        KeyCode::Esc => 0x11010f,
    }
}

fn slot_of(key: KeyEvent, mode: Mode) -> (n: u64)
    ensures
        n == slot(key, mode),
{
    let m: u64 = match mode {
        Mode::Normal => 0,
        Mode::Insert => 1,
        Mode::Command => 2,
    };
    (code_ordinal_of(key.code) * 256 + (key.modifiers.bits as u64)) * 4 + m
}

/// The table of key bindings.
pub struct KeyBindings {
    bindings: HashMap<u64, Action>,
}

impl View for KeyBindings {
    type V = Bindings;

    closed spec fn view(&self) -> Bindings {
        Map::new(
            |k: (KeyEvent, Mode)| self.bindings@.contains_key(slot(k.0, k.1) as u64),
            |k: (KeyEvent, Mode)| self.bindings@[slot(k.0, k.1) as u64],
        )
    }
}

impl KeyBindings {
    /// A table with no binding.
    pub fn new() -> (table: KeyBindings)
        ensures
            table@ == Map::<(KeyEvent, Mode), Action>::empty(),
    {
        let table = KeyBindings { bindings: HashMap::new() };
        assert(table@ =~= Map::<(KeyEvent, Mode), Action>::empty());
        table
    }

    /// Binds `action` to `key` in `mode`, in place of what was bound to it.
    pub fn bind(&mut self, key: KeyEvent, mode: Mode, action: Action)
        ensures
            final(self)@ == old(self)@.insert((key, mode), action),
    {
        let n = slot_of(key, mode);
        self.bindings.insert(n, action);
        proof {
            assert forall|k: (KeyEvent, Mode)| slot(k.0, k.1) == slot(key, mode) implies k == (
                key,
                mode,
            ) by {
                lemma_slot_injective(k.0, k.1, key, mode);
            }
            assert(self@ =~= old(self)@.insert((key, mode), action));
        }
    }

    /// The action that `key` stands for in `mode`.
    pub fn get_action(&self, key: KeyEvent, mode: Mode) -> (action: Option<Action>)
        ensures
            action == resolve(self@, key, mode),
            !self@.contains_key((key, mode)) && !(mode == Mode::Insert && key.code is Char)
                ==> action is None,
    {
        let n = slot_of(key, mode);
        if let Some(action) = self.bindings.get(&n) {
            return Some(*action);
        }
        if mode == Mode::Insert {
            if let KeyCode::Char(c) = key.code {
                if key.modifiers == KeyModifiers::none() || key.modifiers
                    == KeyModifiers::shift() {
                    return Some(Action::InsertChar(c));
                }
            }
        }
        None
    }
}

/// The action bound by default to a key press in a mode, if any.
///
/// In normal mode, with no modifier: `q` quits, `k` and `+` increment, `j`
/// and `-` decrement, `r` resets, `i` enters insert mode; with shift, `:`
/// enters command mode and `?` shows the help. In insert and in command mode
/// Esc returns to normal mode and Backspace deletes a character. In command
/// mode Enter executes the command and each lower-case letter inserts itself.
pub open spec fn default_action(key: KeyEvent, mode: Mode) -> Option<Action> {
    if key.modifiers == KeyModifiers::none() {
        match (mode, key.code) {
            (Mode::Normal, KeyCode::Char('q')) => Some(Action::Quit),
            (Mode::Normal, KeyCode::Char('k')) => Some(Action::Increment),
            (Mode::Normal, KeyCode::Char('+')) => Some(Action::Increment),
            (Mode::Normal, KeyCode::Char('j')) => Some(Action::Decrement),
            (Mode::Normal, KeyCode::Char('-')) => Some(Action::Decrement),
            (Mode::Normal, KeyCode::Char('r')) => Some(Action::Reset),
            (Mode::Normal, KeyCode::Char('i')) => Some(Action::EnterInsertMode),
            (Mode::Insert, KeyCode::Esc) => Some(Action::EnterNormalMode),
            (Mode::Insert, KeyCode::Backspace) => Some(Action::DeleteChar),
            (Mode::Command, KeyCode::Esc) => Some(Action::EnterNormalMode),
            (Mode::Command, KeyCode::Enter) => Some(Action::ExecuteCommand),
            (Mode::Command, KeyCode::Backspace) => Some(Action::DeleteChar),
            (Mode::Command, KeyCode::Char(c)) => if 'a' <= c <= 'z' {
                Some(Action::InsertChar(c))
            } else {
                None
            },
            _ => None,
        }
    } else if key.modifiers == KeyModifiers::shift() {
        match (mode, key.code) {
            (Mode::Normal, KeyCode::Char(':')) => Some(Action::EnterCommandMode),
            (Mode::Normal, KeyCode::Char('?')) => Some(Action::ShowHelp),
            _ => None,
        }
    } else {
        None
    }
}

/// The default binding table.
pub open spec fn default_bindings() -> Bindings {
    Map::new(
        |k: (KeyEvent, Mode)| default_action(k.0, k.1) is Some,
        |k: (KeyEvent, Mode)| default_action(k.0, k.1)->0,
    )
}

/// The default bindings but for the letters of command mode from `next` on.
spec fn default_bindings_below(next: int) -> Bindings {
    Map::new(
        |k: (KeyEvent, Mode)|
            default_action(k.0, k.1) is Some && !(k.1 == Mode::Command && k.0.code is Char
                && next <= k.0.code->Char_0 as int),
        |k: (KeyEvent, Mode)| default_action(k.0, k.1)->0,
    )
}

impl Default for KeyBindings {
    /// The table of the default bindings.
    fn default() -> (table: KeyBindings)
        ensures
            table@ == default_bindings(),
    {
        let mut bindings = KeyBindings::new();

        bindings.bind(
            KeyEvent::new(KeyCode::Char('q'), KeyModifiers::none()),
            Mode::Normal,
            Action::Quit,
        );
        bindings.bind(
            KeyEvent::new(KeyCode::Char('k'), KeyModifiers::none()),
            Mode::Normal,
            Action::Increment,
        );
        bindings.bind(
            KeyEvent::new(KeyCode::Char('j'), KeyModifiers::none()),
            Mode::Normal,
            Action::Decrement,
        );
        bindings.bind(
            KeyEvent::new(KeyCode::Char('+'), KeyModifiers::none()),
            Mode::Normal,
            Action::Increment,
        );
        bindings.bind(
            KeyEvent::new(KeyCode::Char('-'), KeyModifiers::none()),
            Mode::Normal,
            Action::Decrement,
        );
        bindings.bind(
            KeyEvent::new(KeyCode::Char('r'), KeyModifiers::none()),
            Mode::Normal,
            Action::Reset,
        );
        bindings.bind(
            KeyEvent::new(KeyCode::Char('i'), KeyModifiers::none()),
            Mode::Normal,
            Action::EnterInsertMode,
        );
        bindings.bind(
            KeyEvent::new(KeyCode::Char(':'), KeyModifiers::shift()),
            Mode::Normal,
            Action::EnterCommandMode,
        );
        bindings.bind(
            KeyEvent::new(KeyCode::Char('?'), KeyModifiers::shift()),
            Mode::Normal,
            Action::ShowHelp,
        );

        bindings.bind(
            KeyEvent::new(KeyCode::Esc, KeyModifiers::none()),
            Mode::Insert,
            Action::EnterNormalMode,
        );
        bindings.bind(
            KeyEvent::new(KeyCode::Backspace, KeyModifiers::none()),
            Mode::Insert,
            Action::DeleteChar,
        );

        bindings.bind(
            KeyEvent::new(KeyCode::Esc, KeyModifiers::none()),
            Mode::Command,
            Action::EnterNormalMode,
        );
        bindings.bind(
            KeyEvent::new(KeyCode::Enter, KeyModifiers::none()),
            Mode::Command,
            Action::ExecuteCommand,
        );
        bindings.bind(
            KeyEvent::new(KeyCode::Backspace, KeyModifiers::none()),
            Mode::Command,
            Action::DeleteChar,
        );
        assert(bindings@ =~= default_bindings_below('a' as int));

        let mut letter: u8 = 97;
        while letter <= 122
            invariant
                97 <= letter <= 123,
                bindings@ == default_bindings_below(letter as int),
            decreases 123 - letter,
        {
            let c: char = letter as char;
            bindings.bind(
                KeyEvent::new(KeyCode::Char(c), KeyModifiers::none()),
                Mode::Command,
                Action::InsertChar(c),
            );
            letter = letter + 1;
            assert(bindings@ =~= default_bindings_below(letter as int));
        }
        assert(bindings@ =~= default_bindings());
        bindings
    }
}

/// With the default bindings only `q` without modifiers, in normal mode,
/// quits.
pub proof fn lemma_default_quit_is_q_in_normal_mode(key: KeyEvent, mode: Mode)
    ensures
        resolve(default_bindings(), key, mode) == Some(Action::Quit) <==> mode == Mode::Normal
            && key == (KeyEvent { code: KeyCode::Char('q'), modifiers: KeyModifiers::none() }),
{
}

} // verus!
