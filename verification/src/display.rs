//! What the input area shows, as text: the drawing itself is left to the
//! caller.

use crate::app::{App, AppState, Mode};
use vstd::prelude::*;
use vstd::string::StringExecFns;

verus! {

/// The title of the input area in a mode.
pub open spec fn input_title_text(mode: Mode) -> Seq<char> {
    match mode {
        Mode::Normal => "Normal Mode"@,
        Mode::Insert => "Insert Mode"@,
        Mode::Command => "Command Mode"@,
    }
}

/// The line in the input area: a hint in normal mode; else what has been
/// typed, after `Input: ` in insert mode and after a colon in command mode.
pub open spec fn input_line_text(s: AppState) -> Seq<char> {
    match s.mode {
        Mode::Normal => "Press 'i' for insert, ':' for command"@,
        Mode::Insert => "Input: "@ + s.input,
        Mode::Command => ":"@ + s.input,
    }
}

/// The title of the input area in a mode.
pub fn input_title(mode: Mode) -> (title: &'static str)
    ensures
        title@ == input_title_text(mode),
{
    match mode {
        Mode::Normal => "Normal Mode",
        Mode::Insert => "Insert Mode",
        Mode::Command => "Command Mode",
    }
}

/// The line that the input area shows for the application's state.
pub fn input_line(app: &App) -> (line: String)
    ensures
        line@ == input_line_text(app@),
{
    match app.mode() {
        Mode::Normal => String::from_str("Press 'i' for insert, ':' for command"),
        Mode::Insert => String::from_str("Input: ").concat(app.input()),
        Mode::Command => String::from_str(":").concat(app.input()),
    }
}

} // verus!
