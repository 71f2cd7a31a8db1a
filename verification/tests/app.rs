use modal_keys::app::{App, Mode};
use modal_keys::display::{input_line, input_title};
use modal_keys::key::{KeyCode, KeyEvent, KeyModifiers};
use modal_keys::keybinds::Action;

fn plain(c: char) -> KeyEvent {
    KeyEvent::new(KeyCode::Char(c), KeyModifiers::none())
}

fn named(code: KeyCode) -> KeyEvent {
    KeyEvent::new(code, KeyModifiers::none())
}

/// An application in command mode with `text` typed.
fn command_mode_with(text: &str) -> App {
    let mut app = App::new();
    assert!(app.perform_action(Action::EnterCommandMode));
    for c in text.chars() {
        assert!(app.perform_action(Action::InsertChar(c)));
    }
    assert_eq!(app.input(), text);
    app
}

#[test]
fn initial_state() {
    let app = App::new();
    assert_eq!(app.mode(), Mode::Normal);
    assert_eq!(app.input(), "");
    assert_eq!(app.counter(), 0);
    assert_eq!(app.status_message(), "");
    let other = App::default();
    assert_eq!(other.mode(), Mode::Normal);
    assert_eq!(other.counter(), 0);
}

#[test]
fn unbound_key_resolves_to_nothing() {
    let mut app = App::new();
    assert_eq!(app.handle_key(plain('z')), None);
    assert_eq!(app.handle_key(named(KeyCode::Esc)), None);
    assert_eq!(app.handle_key(named(KeyCode::Up)), None);
    app.perform_action(Action::EnterCommandMode);
    assert_eq!(app.handle_key(plain('Z')), None);
    assert_eq!(app.handle_key(plain('1')), None);
    app.perform_action(Action::EnterNormalMode);
    app.perform_action(Action::EnterInsertMode);
    assert_eq!(app.handle_key(named(KeyCode::Enter)), None);
}

#[test]
fn resolving_twice_gives_the_same_and_changes_nothing() {
    let mut app = App::new();
    app.perform_action(Action::Increment);
    for key in [plain('k'), plain('z'), named(KeyCode::Esc)] {
        let first = app.handle_key(key);
        let second = app.handle_key(key);
        assert_eq!(first, second);
    }
    assert_eq!(app.mode(), Mode::Normal);
    assert_eq!(app.counter(), 1);
    assert_eq!(app.input(), "");
    assert_eq!(app.status_message(), "Counter incremented to 1");
    // other actions in between do not change what a key stands for
    let before = app.handle_key(plain('j'));
    app.perform_action(Action::Reset);
    app.perform_action(Action::InsertChar('x'));
    assert_eq!(app.handle_key(plain('j')), before);
}

#[test]
fn decrement_saturates_at_zero() {
    let mut app = App::new();
    assert!(app.perform_action(Action::Decrement));
    assert_eq!(app.counter(), 0);
    assert_eq!(app.status_message(), "Counter decremented to 0");
    assert!(app.perform_action(Action::Decrement));
    assert_eq!(app.counter(), 0);
}

#[test]
fn decrement_takes_one_off() {
    let mut app = App::new();
    for _ in 0..3 {
        app.perform_action(Action::Increment);
    }
    assert!(app.perform_action(Action::Decrement));
    assert_eq!(app.counter(), 2);
    assert_eq!(app.status_message(), "Counter decremented to 2");
}

#[test]
fn increment_writes_the_counter_in_decimal() {
    let mut app = App::new();
    for _ in 0..9 {
        app.perform_action(Action::Increment);
    }
    assert_eq!(app.status_message(), "Counter incremented to 9");
    app.perform_action(Action::Increment);
    assert_eq!(app.counter(), 10);
    assert_eq!(app.status_message(), "Counter incremented to 10");
    for _ in 0..95 {
        app.perform_action(Action::Increment);
    }
    assert_eq!(app.counter(), 105);
    assert_eq!(app.status_message(), "Counter incremented to 105");
    app.perform_action(Action::Decrement);
    assert_eq!(app.status_message(), "Counter decremented to 104");
    for _ in 0..1000 {
        app.perform_action(Action::Increment);
    }
    assert_eq!(app.status_message(), "Counter incremented to 1104");
}

#[test]
fn reset_sets_the_counter_to_zero() {
    let mut app = App::new();
    app.perform_action(Action::Increment);
    app.perform_action(Action::Increment);
    assert!(app.perform_action(Action::Reset));
    assert_eq!(app.counter(), 0);
    assert_eq!(app.status_message(), "Counter reset");
}

#[test]
fn mode_changes_clear_the_input() {
    for (action, mode, status) in [
        (Action::EnterInsertMode, Mode::Insert, "-- INSERT --"),
        (Action::EnterCommandMode, Mode::Command, "Enter command:"),
        (Action::EnterNormalMode, Mode::Normal, "-- NORMAL --"),
    ] {
        for start in [Action::EnterInsertMode, Action::EnterCommandMode, Action::EnterNormalMode] {
            let mut app = App::new();
            app.perform_action(start);
            app.perform_action(Action::InsertChar('a'));
            app.perform_action(Action::InsertChar('b'));
            assert_eq!(app.input(), "ab");
            assert!(app.perform_action(action));
            assert_eq!(app.input(), "");
            assert_eq!(app.mode(), mode);
            assert_eq!(app.status_message(), status);
        }
    }
}

#[test]
fn mode_changes_keep_the_counter() {
    let mut app = App::new();
    app.perform_action(Action::Increment);
    app.perform_action(Action::EnterInsertMode);
    app.perform_action(Action::EnterNormalMode);
    app.perform_action(Action::EnterCommandMode);
    assert_eq!(app.counter(), 1);
}

#[test]
fn insert_char_appends_and_keeps_the_status() {
    let mut app = App::new();
    app.perform_action(Action::EnterInsertMode);
    assert!(app.perform_action(Action::InsertChar('h')));
    assert!(app.perform_action(Action::InsertChar('é')));
    assert!(app.perform_action(Action::InsertChar('!')));
    assert_eq!(app.input(), "hé!");
    assert_eq!(app.status_message(), "-- INSERT --");
    assert_eq!(app.mode(), Mode::Insert);
}

#[test]
fn delete_char_removes_the_last_character() {
    let mut app = App::new();
    app.perform_action(Action::EnterInsertMode);
    app.perform_action(Action::InsertChar('a'));
    app.perform_action(Action::InsertChar('é'));
    assert!(app.perform_action(Action::DeleteChar));
    assert_eq!(app.input(), "a");
    assert_eq!(app.status_message(), "-- INSERT --");
    assert!(app.perform_action(Action::DeleteChar));
    assert_eq!(app.input(), "");
}

#[test]
fn delete_char_on_empty_input_does_nothing() {
    let mut app = App::new();
    app.perform_action(Action::EnterInsertMode);
    assert!(app.perform_action(Action::DeleteChar));
    assert_eq!(app.input(), "");
    assert_eq!(app.mode(), Mode::Insert);
    assert_eq!(app.status_message(), "-- INSERT --");
}

#[test]
fn show_help_changes_the_status_only() {
    let mut app = App::new();
    app.perform_action(Action::Increment);
    app.perform_action(Action::InsertChar('x'));
    assert!(app.perform_action(Action::ShowHelp));
    assert_eq!(
        app.status_message(),
        "Normal: q quit, k/+ increment, j/- decrement, r reset, i insert, : command, ? help"
    );
    assert_eq!(app.counter(), 1);
    assert_eq!(app.input(), "x");
    assert_eq!(app.mode(), Mode::Normal);
}

#[test]
fn quit_changes_nothing() {
    let mut app = App::new();
    app.perform_action(Action::Increment);
    app.perform_action(Action::EnterInsertMode);
    app.perform_action(Action::InsertChar('x'));
    assert!(!app.perform_action(Action::Quit));
    assert_eq!(app.counter(), 1);
    assert_eq!(app.mode(), Mode::Insert);
    assert_eq!(app.input(), "x");
    assert_eq!(app.status_message(), "-- INSERT --");
}

#[test]
fn every_action_but_quit_keeps_running() {
    for action in [
        Action::Increment,
        Action::Decrement,
        Action::Reset,
        Action::EnterInsertMode,
        Action::EnterCommandMode,
        Action::EnterNormalMode,
        Action::InsertChar('c'),
        Action::DeleteChar,
        Action::ExecuteCommand,
        Action::ShowHelp,
    ] {
        let mut app = App::new();
        assert!(app.perform_action(action));
    }
}

#[test]
fn execute_command_always_clears_and_returns_to_normal() {
    for text in ["", "q", "quit", "reset", "frobnicate", "Reset", "quit "] {
        let mut app = command_mode_with(text);
        assert!(app.perform_action(Action::ExecuteCommand));
        assert_eq!(app.input(), "");
        assert_eq!(app.mode(), Mode::Normal);
    }
    // from insert mode as well
    let mut app = App::new();
    app.perform_action(Action::EnterInsertMode);
    app.perform_action(Action::InsertChar('x'));
    assert!(app.perform_action(Action::ExecuteCommand));
    assert_eq!(app.input(), "");
    assert_eq!(app.mode(), Mode::Normal);
}

#[test]
fn quit_command_does_not_quit() {
    for text in ["quit", "q"] {
        let mut app = command_mode_with(text);
        app.perform_action(Action::ExecuteCommand);
        assert_eq!(app.status_message(), "Use 'q' in normal mode to quit");
    }
    let mut app = App::new();
    app.perform_action(Action::Increment);
    app.perform_action(Action::EnterCommandMode);
    for c in "quit".chars() {
        app.perform_action(Action::InsertChar(c));
    }
    assert!(app.perform_action(Action::ExecuteCommand));
    assert_eq!(app.status_message(), "Use 'q' in normal mode to quit");
    assert_eq!(app.counter(), 1);
}

#[test]
fn unknown_command_is_reported_with_its_text() {
    let mut app = command_mode_with("frobnicate");
    app.perform_action(Action::ExecuteCommand);
    assert_eq!(app.status_message(), "Unknown command: frobnicate");
    let mut app = command_mode_with("");
    app.perform_action(Action::ExecuteCommand);
    assert_eq!(app.status_message(), "Unknown command: ");
    // the whole text is matched, and case counts
    let mut app = command_mode_with("resets");
    app.perform_action(Action::Increment);
    app.perform_action(Action::ExecuteCommand);
    assert_eq!(app.status_message(), "Unknown command: resets");
    assert_eq!(app.counter(), 1);
    let mut app = command_mode_with("QUIT");
    app.perform_action(Action::ExecuteCommand);
    assert_eq!(app.status_message(), "Unknown command: QUIT");
}

#[test]
fn scenario_k_increments() {
    let mut app = App::new();
    let action = app.handle_key(plain('k'));
    assert_eq!(action, Some(Action::Increment));
    assert_eq!(app.counter(), 0);
    assert!(app.perform_action(Action::Increment));
    assert_eq!(app.counter(), 1);
    assert_eq!(app.status_message(), "Counter incremented to 1");
}

#[test]
fn scenario_insert_mode_types_a() {
    let mut app = App::new();
    let action = app.handle_key(plain('i'));
    assert_eq!(action, Some(Action::EnterInsertMode));
    assert!(app.perform_action(Action::EnterInsertMode));
    assert_eq!(app.mode(), Mode::Insert);
    let action = app.handle_key(plain('a'));
    assert_eq!(action, Some(Action::InsertChar('a')));
    assert!(app.perform_action(Action::InsertChar('a')));
    assert_eq!(app.input(), "a");
}

#[test]
fn scenario_reset_command() {
    let mut app = App::new();
    app.perform_action(Action::Increment);
    app.perform_action(Action::Increment);
    app.perform_action(Action::EnterCommandMode);
    for c in "reset".chars() {
        let action = app.handle_key(plain(c));
        assert_eq!(action, Some(Action::InsertChar(c)));
        app.perform_action(Action::InsertChar(c));
    }
    assert_eq!(app.mode(), Mode::Command);
    assert_eq!(app.input(), "reset");
    assert_eq!(app.counter(), 2);
    let action = app.handle_key(named(KeyCode::Enter));
    assert_eq!(action, Some(Action::ExecuteCommand));
    assert!(app.perform_action(Action::ExecuteCommand));
    assert_eq!(app.counter(), 0);
    assert_eq!(app.status_message(), "Counter reset via command");
    assert_eq!(app.mode(), Mode::Normal);
    assert_eq!(app.input(), "");
}

#[test]
fn scenario_q_quits() {
    let mut app = App::new();
    let action = app.handle_key(plain('q'));
    assert_eq!(action, Some(Action::Quit));
    assert!(!app.perform_action(Action::Quit));
}

#[test]
fn keys_drive_a_whole_session() {
    let mut app = App::new();
    let keys = [
        plain('k'),
        plain('+'),
        plain('j'),
        KeyEvent::new(KeyCode::Char(':'), KeyModifiers::shift()),
        plain('x'),
        named(KeyCode::Backspace),
        plain('r'),
        plain('e'),
        plain('s'),
        plain('e'),
        plain('t'),
        named(KeyCode::Enter),
        plain('i'),
        KeyEvent::new(KeyCode::Char('H'), KeyModifiers::shift()),
        plain('i'),
        named(KeyCode::Esc),
        KeyEvent::new(KeyCode::Char('?'), KeyModifiers::shift()),
    ];
    let mut seen = Vec::new();
    for key in keys {
        if let Some(action) = app.handle_key(key) {
            assert!(app.perform_action(action));
            seen.push((app.mode(), app.counter(), app.input().to_string()));
        }
    }
    assert_eq!(seen.len(), keys.len());
    assert_eq!(seen[2], (Mode::Normal, 1, String::new()));
    assert_eq!(seen[5], (Mode::Command, 1, String::new()));
    assert_eq!(seen[10], (Mode::Command, 1, "reset".to_string()));
    assert_eq!(seen[11], (Mode::Normal, 0, String::new()));
    assert_eq!(seen[14], (Mode::Insert, 0, "Hi".to_string()));
    assert_eq!(seen[15], (Mode::Normal, 0, String::new()));
    assert_eq!(app.mode(), Mode::Normal);
    assert!(app.status_message().starts_with("Normal: q quit"));
    assert_eq!(app.handle_key(plain('q')), Some(Action::Quit));
    assert!(!app.perform_action(Action::Quit));
}

#[test]
fn input_area_titles() {
    assert_eq!(input_title(Mode::Normal), "Normal Mode");
    assert_eq!(input_title(Mode::Insert), "Insert Mode");
    assert_eq!(input_title(Mode::Command), "Command Mode");
}

#[test]
fn input_area_lines() {
    let mut app = App::new();
    assert_eq!(input_line(&app), "Press 'i' for insert, ':' for command");
    app.perform_action(Action::EnterInsertMode);
    assert_eq!(input_line(&app), "Input: ");
    app.perform_action(Action::InsertChar('h'));
    app.perform_action(Action::InsertChar('i'));
    assert_eq!(input_line(&app), "Input: hi");
    app.perform_action(Action::EnterCommandMode);
    assert_eq!(input_line(&app), ":");
    app.perform_action(Action::InsertChar('q'));
    assert_eq!(input_line(&app), ":q");
}
