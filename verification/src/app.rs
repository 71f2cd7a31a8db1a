//! The application state and the actions that change it.

use crate::key::KeyEvent;
use crate::keybinds::{default_bindings, resolve, Action, Bindings, KeyBindings};
use crate::text::{append_decimal, decimal, pop_char, push_char, same_text};
use vstd::prelude::*;
use vstd::string::StringExecFns;

verus! {

/// The interaction mode, which decides which bindings are active.
#[derive(Clone, Copy, Debug, PartialEq, Eq, Hash, Structural)]
pub enum Mode {
    Normal,
    Insert,
    Command,
}

/// The application state as a mathematical value.
pub struct AppState {
    pub mode: Mode,
    pub input: Seq<char>,
    pub counter: nat,
    pub status_message: Seq<char>,
    pub bindings: Bindings,
}

/// The state in which the application starts: normal mode, nothing typed,
/// the counter at zero, an empty status line.
pub open spec fn initial_state(bindings: Bindings) -> AppState {
    AppState {
        mode: Mode::Normal,
        input: Seq::empty(),
        counter: 0,
        status_message: Seq::empty(),
        bindings,
    }
}

/// The status line that `ShowHelp` sets.
pub open spec fn help_text() -> Seq<char> {
    "Normal: q quit, k/+ increment, j/- decrement, r reset, i insert, : command, ? help"@
}

/// The state after the command in the input buffer has run: `reset` sets the
/// counter to zero; `q` and `quit` only say how to quit; any other text is
/// reported as unknown. The input buffer is empty afterwards.
pub open spec fn after_command(s: AppState) -> AppState {
    if s.input == "q"@ || s.input == "quit"@ {
        AppState { input: Seq::empty(), status_message: "Use 'q' in normal mode to quit"@, ..s }
    } else if s.input == "reset"@ {
        AppState {
            input: Seq::empty(),
            counter: 0,
            status_message: "Counter reset via command"@,
            ..s
        }
    } else {
        AppState { input: Seq::empty(), status_message: "Unknown command: "@ + s.input, ..s }
    }
}

/// Whether an action is one of the three that enter a mode.
pub open spec fn enters_mode(action: Action) -> bool {
    action == Action::EnterInsertMode || action == Action::EnterCommandMode || action
        == Action::EnterNormalMode
}

/// The state after an action. `Quit` and `ShowHelp` leave mode, input and
/// counter alone; the three actions that enter a mode empty the input buffer;
/// the counter never goes below zero.
pub open spec fn step(s: AppState, action: Action) -> AppState {
    match action {
        Action::Quit => s,
        Action::Increment => AppState {
            counter: s.counter + 1,
            status_message: "Counter incremented to "@ + decimal(s.counter + 1),
            ..s
        },
        Action::Decrement => {
            let counter = if s.counter == 0 {
                0
            } else {
                (s.counter - 1) as nat
            };
            AppState {
                counter,
                status_message: "Counter decremented to "@ + decimal(counter),
                ..s
            }
        },
        Action::Reset => AppState { counter: 0, status_message: "Counter reset"@, ..s },
        Action::EnterInsertMode => AppState {
            mode: Mode::Insert,
            input: Seq::empty(),
            status_message: "-- INSERT --"@,
            ..s
        },
        Action::EnterCommandMode => AppState {
            mode: Mode::Command,
            input: Seq::empty(),
            status_message: "Enter command:"@,
            ..s
        },
        Action::EnterNormalMode => AppState {
            mode: Mode::Normal,
            input: Seq::empty(),
            status_message: "-- NORMAL --"@,
            ..s
        },
        Action::InsertChar(c) => AppState { input: s.input.push(c), ..s },
        Action::DeleteChar => if s.input.len() > 0 {
            AppState { input: s.input.drop_last(), ..s }
        } else {
            s
        },
        Action::ExecuteCommand => AppState { mode: Mode::Normal, ..after_command(s) },
        Action::ShowHelp => AppState { status_message: help_text(), ..s },
    }
}

/// The application: a mode, an input buffer, a counter, a status line and the
/// binding table.
pub struct App {
    mode: Mode,
    input: String,
    counter: u64,
    status_message: String,
    keybindings: KeyBindings,
}

impl View for App {
    type V = AppState;

    closed spec fn view(&self) -> AppState {
        AppState {
            mode: self.mode,
            input: self.input@,
            counter: self.counter as nat,
            status_message: self.status_message@,
            bindings: self.keybindings@,
        }
    }
}

impl App {
    /// The application in its initial state, with the default bindings.
    pub fn new() -> (app: App)
        ensures
            app@ == initial_state(default_bindings()),
    {
        App {
            mode: Mode::Normal,
            input: String::new(),
            counter: 0,
            status_message: String::new(),
            keybindings: KeyBindings::default(),
        }
    }

    /// The action that a key press stands for in the current mode, if any.
    /// The state is left as it is.
    pub fn handle_key(&self, key: KeyEvent) -> (action: Option<Action>)
        ensures
            action == resolve(self@.bindings, key, self@.mode),
            !self@.bindings.contains_key((key, self@.mode)) && !(self@.mode == Mode::Insert
                && key.code is Char) ==> action is None,
    {
        self.keybindings.get_action(key, self.mode)
    }

    /// Runs the command in the input buffer and empties the buffer.
    fn execute_command(&mut self)
        ensures
            final(self)@ == after_command(old(self)@),
    {
        if same_text(&self.input, "q") || same_text(&self.input, "quit") {
            self.status_message = String::from_str("Use 'q' in normal mode to quit");
        } else if same_text(&self.input, "reset") {
            self.counter = 0;
            self.status_message = String::from_str("Counter reset via command");
        } else {
            let mut message = String::from_str("Unknown command: ");
            message.append(self.input.as_str());
            self.status_message = message;
        }
        self.input = String::new();
    }

    /// Applies one action to the state. The result says whether the
    /// application goes on: only `Quit` ends it, and it changes nothing.
    ///
    /// The counter is a `u64`: it cannot be incremented past `u64::MAX`.
    /// Decrementing it at zero leaves it at zero. Entering a mode empties the
    /// input buffer, and so does executing a command, which always ends in
    /// normal mode; the command `quit` does not end the application. The
    /// bindings stay as they are.
    pub fn perform_action(&mut self, action: Action) -> (running: bool)
        requires
            action == Action::Increment ==> old(self)@.counter < u64::MAX,
        ensures
            final(self)@ == step(old(self)@, action),
            running == (action != Action::Quit),
            final(self)@.bindings == old(self)@.bindings,
            action == Action::Decrement && old(self)@.counter == 0 ==> final(self)@.counter == 0,
            enters_mode(action) ==> final(self)@.input.len() == 0,
            action == Action::ExecuteCommand ==> final(self)@.input.len() == 0,
            action == Action::ExecuteCommand ==> final(self)@.mode == Mode::Normal,
            action == Action::ExecuteCommand && old(self)@.input == "quit"@ ==> running,
            action == Action::ExecuteCommand && old(self)@.input == "quit"@
                ==> final(self)@.status_message == "Use 'q' in normal mode to quit"@,
    {
        match action {
            Action::Quit => {
                return false;
            },
            Action::Increment => {
                self.counter = self.counter + 1;
                let mut message = String::from_str("Counter incremented to ");
                append_decimal(&mut message, self.counter);
                self.status_message = message;
            },
            Action::Decrement => {
                if self.counter > 0 {
                    self.counter = self.counter - 1;
                }
                let mut message = String::from_str("Counter decremented to ");
                append_decimal(&mut message, self.counter);
                self.status_message = message;
            },
            Action::Reset => {
                self.counter = 0;
                self.status_message = String::from_str("Counter reset");
            },
            Action::EnterInsertMode => {
                self.mode = Mode::Insert;
                self.input = String::new();
                self.status_message = String::from_str("-- INSERT --");
            },
            Action::EnterCommandMode => {
                self.mode = Mode::Command;
                self.input = String::new();
                self.status_message = String::from_str("Enter command:");
            },
            Action::EnterNormalMode => {
                self.mode = Mode::Normal;
                self.input = String::new();
                self.status_message = String::from_str("-- NORMAL --");
            },
            Action::InsertChar(c) => {
                push_char(&mut self.input, c);
            },
            Action::DeleteChar => {
                pop_char(&mut self.input);
            },
            Action::ExecuteCommand => {
                self.execute_command();
                self.mode = Mode::Normal;
            },
            Action::ShowHelp => {
                self.status_message = String::from_str(
                    "Normal: q quit, k/+ increment, j/- decrement, r reset, i insert, : command, ? help",
                );
            },
        }
        true
    }

    /// The current mode.
    pub fn mode(&self) -> (mode: Mode)
        ensures
            mode == self@.mode,
    {
        self.mode
    }

    /// What has been typed so far.
    pub fn input(&self) -> (input: &str)
        ensures
            input@ == self@.input,
    {
        self.input.as_str()
    }

    /// The counter.
    pub fn counter(&self) -> (counter: u64)
        ensures
            counter == self@.counter,
    {
        self.counter
    }

    /// The status line.
    pub fn status_message(&self) -> (message: &str)
        ensures
            message@ == self@.status_message,
    {
        self.status_message.as_str()
    }
}

impl Default for App {
    fn default() -> (app: App)
        ensures
            app@ == initial_state(default_bindings()),
    {
        App::new()
    }
}

/// What a key press resolves to depends on the bindings and the mode alone:
/// two states that agree on both resolve every key press alike, whatever
/// else has happened to them.
pub proof fn lemma_resolution_depends_on_mode_and_bindings(a: AppState, b: AppState, key: KeyEvent)
    requires
        a.mode == b.mode,
        a.bindings == b.bindings,
    ensures
        resolve(a.bindings, key, a.mode) == resolve(b.bindings, key, b.mode),
{
}

/// An action that leaves the mode as it was leaves every key press with the
/// action it stood for: no action touches the bindings.
pub proof fn lemma_resolution_survives_actions(s: AppState, action: Action, key: KeyEvent)
    requires
        step(s, action).mode == s.mode,
    ensures
        resolve(step(s, action).bindings, key, step(s, action).mode) == resolve(
            s.bindings,
            key,
            s.mode,
        ),
{
}

/// With the default bindings, a state in which normal mode has an empty
/// input buffer is followed, after any key press and the action it resolves
/// to, by such a state again: text is typed in insert and command mode only,
/// and is gone when normal mode returns.
pub proof fn lemma_keys_keep_normal_mode_input_empty(s: AppState, key: KeyEvent)
    requires
        s.bindings == default_bindings(),
        s.mode == Mode::Normal ==> s.input.len() == 0,
        resolve(s.bindings, key, s.mode) is Some,
    ensures
        ({
            let next = step(s, resolve(s.bindings, key, s.mode)->0);
            &&& next.bindings == default_bindings()
            &&& next.mode == Mode::Normal ==> next.input.len() == 0
        }),
{
}

} // verus!
