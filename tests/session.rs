use std::cell::Cell;

use rust_terminal_emulator::command::{CommandExecutor, CommandResult};
use rust_terminal_emulator::terminal::{Key, Step, Terminal};

/// Answers every command with a fixed reply and counts the calls.
struct Stub {
    reply: Result<CommandResult, String>,
    calls: Cell<usize>,
    last: std::cell::RefCell<(String, String)>,
}

impl Stub {
    fn new(reply: Result<CommandResult, String>) -> Stub {
        Stub { reply, calls: Cell::new(0), last: std::cell::RefCell::new((String::new(), String::new())) }
    }
}

impl CommandExecutor for Stub {
    fn execute(&self, command: &str, current_dir: &str) -> Result<CommandResult, String> {
        self.calls.set(self.calls.get() + 1);
        *self.last.borrow_mut() = (command.to_string(), current_dir.to_string());
        self.reply.clone()
    }
}

fn session(dir: &str) -> Terminal {
    Terminal::new("user".to_string(), "host".to_string(), dir.to_string(), 24)
}

fn type_text(t: &mut Terminal, text: &str, ex: &Stub) {
    for c in text.chars() {
        assert_eq!(t.process_key(Key::Char(c), ex), Step::Redraw);
    }
}

fn lines(t: &Terminal) -> Vec<String> {
    t.scrollback().lines().clone()
}

#[test]
fn submit_pwd_echoes_and_shows_output() {
    let ex = Stub::new(Ok(CommandResult::Output("/tmp\n".to_string())));
    let mut t = session("/tmp");
    type_text(&mut t, "pwd", &ex);
    assert_eq!(t.process_key(Key::Enter, &ex), Step::Redraw);
    assert_eq!(lines(&t), vec!["user@host(/tmp): pwd".to_string(), "/tmp".to_string()]);
    assert_eq!(t.input_text(), "");
    assert_eq!(ex.calls.get(), 1);
    assert_eq!(*ex.last.borrow(), ("pwd".to_string(), "/tmp".to_string()));
    assert!(t.is_running());
}

#[test]
fn failed_cd_reports_error_and_keeps_directory() {
    let ex = Stub::new(Ok(CommandResult::Error(
        "Failed to change directory: No such file or directory (os error 2)".to_string(),
    )));
    let mut t = session("/home/user");
    type_text(&mut t, "cd /nonexistent", &ex);
    t.process_key(Key::Enter, &ex);
    assert_eq!(
        lines(&t),
        vec![
            "user@host(/home/user): cd /nonexistent".to_string(),
            "Error: Failed to change directory: No such file or directory (os error 2)".to_string(),
        ]
    );
    assert_eq!(t.current_dir(), "/home/user");
}

#[test]
fn exit_command_ends_session_without_running_anything() {
    let ex = Stub::new(Ok(CommandResult::Empty));
    let mut t = session("/tmp");
    type_text(&mut t, "  exit ", &ex);
    assert_eq!(t.process_key(Key::Enter, &ex), Step::Exit);
    assert_eq!(lines(&t), vec!["user@host(/tmp): exit".to_string(), "Exiting...".to_string()]);
    assert!(!t.is_running());
    assert_eq!(ex.calls.get(), 0);
}

#[test]
fn esc_ends_session() {
    let ex = Stub::new(Ok(CommandResult::Empty));
    let mut t = session("/tmp");
    type_text(&mut t, "ls", &ex);
    assert_eq!(t.process_key(Key::Esc, &ex), Step::Exit);
    assert_eq!(lines(&t), vec!["Exiting...".to_string()]);
    assert!(!t.is_running());
    assert_eq!(ex.calls.get(), 0);
}

#[test]
fn empty_submit_only_echoes() {
    let ex = Stub::new(Ok(CommandResult::Output("x".to_string())));
    let mut t = session("/");
    type_text(&mut t, "   ", &ex);
    assert_eq!(t.process_key(Key::Enter, &ex), Step::Redraw);
    assert_eq!(lines(&t), vec!["user@host(/): ".to_string()]);
    assert_eq!(ex.calls.get(), 0);
    assert!(t.history().entries().is_empty());
    assert_eq!(t.input_text(), "");
}

#[test]
fn directory_change_updates_prompt() {
    let ex = Stub::new(Ok(CommandResult::DirectoryChanged("/usr/lib".to_string())));
    let mut t = session("/usr");
    type_text(&mut t, "cd lib", &ex);
    t.process_key(Key::Enter, &ex);
    assert_eq!(t.current_dir(), "/usr/lib");
    assert_eq!(t.get_prompt(), "user@host(/usr/lib): ");
    assert_eq!(lines(&t), vec!["user@host(/usr): cd lib".to_string()]);
}

#[test]
fn launch_failure_is_one_line() {
    let ex = Stub::new(Err("No such file or directory".to_string()));
    let mut t = session("/tmp");
    type_text(&mut t, "ls", &ex);
    t.process_key(Key::Enter, &ex);
    assert_eq!(
        lines(&t),
        vec![
            "user@host(/tmp): ls".to_string(),
            "Failed to execute command: No such file or directory".to_string(),
        ]
    );
    assert_eq!(t.current_dir(), "/tmp");
}

#[test]
fn multi_line_output_and_error_lines() {
    let mut t = session("/");
    t.apply_command_result(Ok(CommandResult::Output("a\nb\r\n\nc".to_string())));
    t.apply_command_result(Ok(CommandResult::Error("bad\nworse\n".to_string())));
    t.apply_command_result(Ok(CommandResult::Empty));
    assert_eq!(
        lines(&t),
        vec!["a", "b", "", "c", "Error: bad", "Error: worse"]
            .into_iter()
            .map(|s| s.to_string())
            .collect::<Vec<_>>()
    );
}

#[test]
fn history_recall_through_keys() {
    let ex = Stub::new(Ok(CommandResult::Empty));
    let mut t = session("/");
    assert_eq!(t.process_key(Key::Up { ctrl: false }, &ex), Step::Idle);
    type_text(&mut t, "one", &ex);
    t.process_key(Key::Enter, &ex);
    type_text(&mut t, "two", &ex);
    t.process_key(Key::Enter, &ex);
    type_text(&mut t, "dra", &ex);
    assert_eq!(t.process_key(Key::Up { ctrl: false }, &ex), Step::Redraw);
    assert_eq!(t.input_text(), "two");
    t.process_key(Key::Up { ctrl: false }, &ex);
    assert_eq!(t.input_text(), "one");
    assert_eq!(t.process_key(Key::Up { ctrl: false }, &ex), Step::Idle);
    assert_eq!(t.input_text(), "one");
    t.process_key(Key::Down { ctrl: false }, &ex);
    assert_eq!(t.input_text(), "two");
    assert_eq!(t.process_key(Key::Down { ctrl: false }, &ex), Step::Redraw);
    assert_eq!(t.input_text(), "");
    assert_eq!(t.history().position(), None);
}

#[test]
fn backspace_edits_input() {
    let ex = Stub::new(Ok(CommandResult::Empty));
    let mut t = session("/");
    assert_eq!(t.process_key(Key::Backspace, &ex), Step::Redraw);
    type_text(&mut t, "lss", &ex);
    t.process_key(Key::Backspace, &ex);
    assert_eq!(t.input_text(), "ls");
}

#[test]
fn scrolling_keys_move_viewport() {
    let ex = Stub::new(Ok(CommandResult::Empty));
    // 11 rows: 10 history rows and the input row.
    let mut t = Terminal::new("u".to_string(), "h".to_string(), "/".to_string(), 11);
    for i in 0..25 {
        t.add_to_history(format!("{}", i));
    }
    assert_eq!(t.scrollback().viewport_height(), 10);
    assert_eq!(t.scrollback().scroll_offset(), 15);
    assert_eq!(t.process_key(Key::Up { ctrl: true }, &ex), Step::Redraw);
    assert_eq!(t.scrollback().scroll_offset(), 14);
    t.process_key(Key::PageUp, &ex);
    assert_eq!(t.scrollback().scroll_offset(), 9);
    t.process_key(Key::Down { ctrl: true }, &ex);
    assert_eq!(t.scrollback().scroll_offset(), 10);
    t.process_key(Key::PageDown, &ex);
    assert_eq!(t.scrollback().scroll_offset(), 15);
    t.scroll_up(100);
    assert_eq!(t.scrollback().scroll_offset(), 0);
    t.scroll_down(3);
    assert_eq!(t.scrollback().scroll_offset(), 3);
    t.scroll_to_bottom();
    assert_eq!(t.scrollback().scroll_offset(), 15);
    assert_eq!(t.process_key(Key::Other, &ex), Step::Idle);
}

#[test]
fn resize_changes_viewport() {
    let ex = Stub::new(Ok(CommandResult::Empty));
    let mut t = session("/");
    for i in 0..30 {
        t.add_to_history(format!("{}", i));
    }
    assert_eq!(t.scrollback().scroll_offset(), 7);
    assert_eq!(t.process_key(Key::Resize { rows: 6 }, &ex), Step::Redraw);
    assert_eq!(t.scrollback().viewport_height(), 5);
    assert_eq!(t.scrollback().scroll_offset(), 7);
    t.process_key(Key::Resize { rows: 0 }, &ex);
    assert_eq!(t.scrollback().viewport_height(), 1);
    t.process_key(Key::Resize { rows: 40 }, &ex);
    assert_eq!(t.scrollback().scroll_offset(), 0);
}
