//! The session: scrollback, input line and history, driven by key events.
use vstd::prelude::*;

use crate::command::{CommandExecutor, CommandResult};
use crate::history::{
    history_wf, newer_spec, older_spec, record_spec, HistoryCursor, HistoryModel, Recall,
    RecallModel,
};
use crate::input_line::InputLine;
use crate::prompt::{format_prompt, prompt_spec};
use crate::scrollback::{min_nat, prefixed, ScrollbackBuffer};
use crate::text::{lines_of, split_lines, trim, trimmed};

verus! {

/// The line shown when the session ends.
pub const FAREWELL: &'static str = "Exiting...";

/// Put in front of each line of a failed command's diagnostics.
pub const ERROR_PREFIX: &'static str = "Error: ";

/// Put in front of the reason why a command could not be run.
pub const LAUNCH_FAILURE_PREFIX: &'static str = "Failed to execute command: ";

/// The command that ends the session.
pub const EXIT_COMMAND: &'static str = "exit";

/// One input event.
#[derive(Clone, Copy, Debug, PartialEq, Eq, Structural)]
pub enum Key {
    /// A printable character.
    Char(char),
    Enter,
    Esc,
    Backspace,
    /// Up arrow; with `ctrl` it scrolls, without it recalls history.
    Up { ctrl: bool },
    /// Down arrow; with `ctrl` it scrolls, without it recalls history.
    Down { ctrl: bool },
    PageUp,
    PageDown,
    /// The terminal now has `rows` rows.
    Resize { rows: usize },
    /// Any other key.
    Other,
}

/// What the caller does after an event.
#[derive(Clone, Copy, Debug, PartialEq, Eq, Structural)]
pub enum Step {
    /// Nothing changed on screen.
    Idle,
    /// Draw the frame again.
    Redraw,
    /// Draw the frame a last time and end the session.
    Exit,
}

/// History rows shown for a terminal of `rows` rows: all but the input row,
/// and at least one.
pub open spec fn viewport_for(rows: nat) -> nat {
    if rows > 1 {
        (rows - 1) as nat
    } else {
        1
    }
}

/// The session state.
pub struct Terminal {
    scrollback: ScrollbackBuffer,
    input: InputLine,
    history: HistoryCursor,
    current_dir: String,
    user: String,
    host: String,
    running: bool,
}

impl Terminal {
    /// The scrollback.
    pub closed spec fn sb(&self) -> ScrollbackBuffer {
        self.scrollback
    }

    /// The input line's text.
    pub closed spec fn input_view(&self) -> Seq<char> {
        self.input@
    }

    /// The command history.
    pub closed spec fn history_view(&self) -> HistoryModel {
        self.history@
    }

    /// The tracked working directory.
    pub closed spec fn dir_view(&self) -> Seq<char> {
        self.current_dir@
    }

    /// The user name shown in the prompt.
    pub closed spec fn user_view(&self) -> Seq<char> {
        self.user@
    }

    /// The host name shown in the prompt.
    pub closed spec fn host_view(&self) -> Seq<char> {
        self.host@
    }

    /// Whether the session goes on.
    pub closed spec fn running_view(&self) -> bool {
        self.running
    }

    /// The scrollback's lines.
    pub open spec fn lines_view(&self) -> Seq<Seq<char>> {
        self.sb().lines_view()
    }

    /// The prompt for the current directory.
    pub open spec fn prompt_view(&self) -> Seq<char> {
        prompt_spec(self.user_view(), self.host_view(), self.dir_view())
    }

    /// The scrollback and the history are well formed.
    pub open spec fn wf(&self) -> bool {
        self.sb().wf() && history_wf(self.history_view())
    }

    /// Same user, host, directory and running state.
    pub open spec fn same_session(&self, o: &Terminal) -> bool {
        &&& self.user_view() == o.user_view()
        &&& self.host_view() == o.host_view()
        &&& self.dir_view() == o.dir_view()
        &&& self.running_view() == o.running_view()
    }

    /// Only the scrollback may differ.
    pub open spec fn same_but_scrollback(&self, o: &Terminal) -> bool {
        &&& self.same_session(o)
        &&& self.input_view() == o.input_view()
        &&& self.history_view() == o.history_view()
    }

    /// Only the input line and the history may differ.
    pub open spec fn same_but_editing(&self, o: &Terminal) -> bool {
        &&& self.same_session(o)
        &&& self.sb() == o.sb()
    }

    /// What handling `key` in state `pre` leads to. After a command was run,
    /// only what holds whatever the executor answered is stated here; see
    /// `apply_command_result` for each answer.
    pub open spec fn key_spec(pre: Terminal, post: Terminal, key: Key, step: Step) -> bool {
        &&& post.user_view() == pre.user_view()
        &&& post.host_view() == pre.host_view()
        &&& post.sb().height() == (match key {
            Key::Resize { rows } => viewport_for(rows as nat),
            _ => pre.sb().height(),
        })
        &&& match key {
            Key::Esc => {
                &&& step == Step::Exit
                &&& !post.running_view()
                &&& post.lines_view() == pre.lines_view().push(FAREWELL@)
                &&& post.input_view() == pre.input_view()
                &&& post.history_view() == pre.history_view()
                &&& post.dir_view() == pre.dir_view()
            },
            Key::Enter => {
                let cmd = trimmed(pre.input_view());
                let echoed = pre.lines_view().push(pre.prompt_view() + cmd);
                if cmd == EXIT_COMMAND@ {
                    &&& step == Step::Exit
                    &&& !post.running_view()
                    &&& post.lines_view() == echoed.push(FAREWELL@)
                    &&& post.input_view() == pre.input_view()
                    &&& post.history_view() == pre.history_view()
                    &&& post.dir_view() == pre.dir_view()
                } else {
                    &&& step == Step::Redraw
                    &&& post.running_view() == pre.running_view()
                    &&& post.input_view() == Seq::<char>::empty()
                    &&& post.history_view() == record_spec(pre.history_view(), cmd)
                    &&& post.lines_view().len() >= echoed.len()
                    &&& post.lines_view().subrange(0, echoed.len() as int) == echoed
                    &&& cmd.len() == 0 ==> post.lines_view() == echoed && post.dir_view()
                        == pre.dir_view()
                }
            },
            Key::Char(c) => {
                &&& step == Step::Redraw
                &&& post.same_but_editing(&pre)
                &&& post.input_view() == pre.input_view().push(c)
                &&& post.history_view() == pre.history_view()
            },
            Key::Backspace => {
                &&& step == Step::Redraw
                &&& post.same_but_editing(&pre)
                &&& post.input_view() == (if pre.input_view().len() > 0 {
                    pre.input_view().drop_last()
                } else {
                    pre.input_view()
                })
                &&& post.history_view() == pre.history_view()
            },
            Key::Up { ctrl: false } => {
                let (h, shown) = older_spec(pre.history_view());
                &&& post.same_but_editing(&pre)
                &&& post.history_view() == h
                &&& match shown {
                    Some(e) => step == Step::Redraw && post.input_view() == e,
                    None => step == Step::Idle && post.input_view() == pre.input_view(),
                }
            },
            Key::Down { ctrl: false } => {
                let (h, recall) = newer_spec(pre.history_view());
                &&& step == Step::Redraw
                &&& post.same_but_editing(&pre)
                &&& post.history_view() == h
                &&& post.input_view() == match recall {
                    RecallModel::Entry(e) => e,
                    RecallModel::Clear => Seq::<char>::empty(),
                    RecallModel::Unchanged => pre.input_view(),
                }
            },
            Key::Other => {
                &&& step == Step::Idle
                &&& post.same_but_scrollback(&pre)
                &&& post.sb() == pre.sb()
            },
            _ => {
                let off = pre.sb().offset();
                let max = pre.sb().max_scroll_spec();
                let half = pre.sb().height() / 2;
                &&& step == Step::Redraw
                &&& post.same_but_scrollback(&pre)
                &&& post.lines_view() == pre.lines_view()
                &&& post.sb().offset() == match key {
                    Key::Up { ctrl: true } => if off >= 1 { (off - 1) as nat } else { 0 },
                    Key::Down { ctrl: true } => min_nat(off + 1, max),
                    Key::PageUp => if off >= half { (off - half) as nat } else { 0 },
                    Key::PageDown => min_nat(off + half, max),
                    _ => min_nat(off, post.sb().max_scroll_spec()),
                }
            },
        }
    }

    /// A new running session with an empty scrollback, for a terminal of
    /// `rows` rows.
    pub fn new(user: String, host: String, current_dir: String, rows: usize) -> (r: Self)
        ensures
            r.wf(),
            r.running_view(),
            r.lines_view() == Seq::<Seq<char>>::empty(),
            r.sb().offset() == 0,
            r.sb().height() == viewport_for(rows as nat),
            r.input_view() == Seq::<char>::empty(),
            r.history_view().entries == Seq::<Seq<char>>::empty(),
            r.history_view().position is None,
            r.user_view() == user@,
            r.host_view() == host@,
            r.dir_view() == current_dir@,
    {
        let height = if rows > 1 {
            rows - 1
        } else {
            1
        };
        Terminal {
            scrollback: ScrollbackBuffer::new(height),
            input: InputLine::new(),
            history: HistoryCursor::new(),
            current_dir,
            user,
            host,
            running: true,
        }
    }

    /// The scrollback.
    pub fn scrollback(&self) -> (r: &ScrollbackBuffer)
        ensures
            *r == self.sb(),
    {
        &self.scrollback
    }

    /// The command history.
    pub fn history(&self) -> (r: &HistoryCursor)
        ensures
            r@ == self.history_view(),
    {
        &self.history
    }

    /// The text typed so far.
    pub fn input_text(&self) -> (r: &str)
        ensures
            r@ == self.input_view(),
    {
        self.input.as_text()
    }

    /// The tracked working directory.
    pub fn current_dir(&self) -> (r: &str)
        ensures
            r@ == self.dir_view(),
    {
        self.current_dir.as_str()
    }

    /// Whether the session goes on.
    pub fn is_running(&self) -> (r: bool)
        ensures
            r == self.running_view(),
    {
        self.running
    }

    /// The prompt `"{user}@{host}({dir}): "` for the current directory.
    pub fn get_prompt(&self) -> (r: String)
        ensures
            r@ == self.prompt_view(),
    {
        format_prompt(self.user.as_str(), self.host.as_str(), self.current_dir.as_str())
    }

    /// Sets the tracked working directory.
    pub fn update_current_dir(&mut self, new_dir: String)
        ensures
            final(self).dir_view() == new_dir@,
            final(self).user_view() == old(self).user_view(),
            final(self).host_view() == old(self).host_view(),
            final(self).running_view() == old(self).running_view(),
            final(self).sb() == old(self).sb(),
            final(self).input_view() == old(self).input_view(),
            final(self).history_view() == old(self).history_view(),
    {
        self.current_dir = new_dir;
    }

    /// Appends a line to the scrollback; a viewport pinned to the bottom
    /// follows it.
    pub fn add_to_history(&mut self, line: String)
        requires
            old(self).wf(),
        ensures
            final(self).wf(),
            final(self).same_but_scrollback(old(self)),
            final(self).lines_view() == old(self).lines_view().push(line@),
            final(self).sb().height() == old(self).sb().height(),
            old(self).sb().offset() == old(self).sb().max_scroll_spec() ==> final(self).sb().offset()
                == final(self).sb().max_scroll_spec(),
            old(self).sb().offset() != old(self).sb().max_scroll_spec() ==> final(self).sb().offset()
                == old(self).sb().offset(),
    {
        self.scrollback.append_line(line);
    }

    /// The largest scroll offset: `max(0, lines - viewport rows)`.
    pub fn max_scroll(&self) -> (r: usize)
        requires
            self.wf(),
        ensures
            r == self.sb().max_scroll_spec(),
    {
        self.scrollback.max_scroll()
    }

    /// Scrolls `lines` lines towards the oldest line, stopping at the top.
    pub fn scroll_up(&mut self, lines: usize)
        requires
            old(self).wf(),
        ensures
            final(self).wf(),
            final(self).same_but_scrollback(old(self)),
            final(self).lines_view() == old(self).lines_view(),
            final(self).sb().height() == old(self).sb().height(),
            final(self).sb().offset() == (if lines >= old(self).sb().offset() {
                0
            } else {
                old(self).sb().offset() - lines
            }),
    {
        self.scrollback.scroll_up(lines);
    }

    /// Scrolls `lines` lines towards the newest line, stopping at the bottom.
    pub fn scroll_down(&mut self, lines: usize)
        requires
            old(self).wf(),
        ensures
            final(self).wf(),
            final(self).same_but_scrollback(old(self)),
            final(self).lines_view() == old(self).lines_view(),
            final(self).sb().height() == old(self).sb().height(),
            final(self).sb().offset() == min_nat(
                (old(self).sb().offset() + lines) as nat,
                old(self).sb().max_scroll_spec(),
            ),
    {
        self.scrollback.scroll_down(lines);
    }

    /// Pins the viewport to the newest lines.
    pub fn scroll_to_bottom(&mut self)
        requires
            old(self).wf(),
        ensures
            final(self).wf(),
            final(self).same_but_scrollback(old(self)),
            final(self).lines_view() == old(self).lines_view(),
            final(self).sb().height() == old(self).sb().height(),
            final(self).sb().offset() == final(self).sb().max_scroll_spec(),
    {
        self.scrollback.scroll_to_bottom();
    }

    /// Puts what the executor answered into the session: output lines as
    /// they are, diagnostic lines behind `ERROR_PREFIX`, a directory change
    /// into the tracked directory, and a failure to run the command as one
    /// line behind `LAUNCH_FAILURE_PREFIX`.
    pub fn apply_command_result(&mut self, result: Result<CommandResult, String>)
        requires
            old(self).wf(),
        ensures
            final(self).wf(),
            final(self).user_view() == old(self).user_view(),
            final(self).host_view() == old(self).host_view(),
            final(self).running_view() == old(self).running_view(),
            final(self).input_view() == old(self).input_view(),
            final(self).history_view() == old(self).history_view(),
            final(self).sb().height() == old(self).sb().height(),
            final(self).lines_view().len() >= old(self).lines_view().len(),
            final(self).lines_view().subrange(0, old(self).lines_view().len() as int) == old(
                self,
            ).lines_view(),
            match result {
                Ok(CommandResult::Output(t)) => final(self).lines_view() == old(self).lines_view()
                    + lines_of(t@) && final(self).dir_view() == old(self).dir_view(),
                Ok(CommandResult::Error(t)) => final(self).lines_view() == old(self).lines_view()
                    + prefixed(ERROR_PREFIX@, lines_of(t@)) && final(self).dir_view() == old(
                    self,
                ).dir_view(),
                Ok(CommandResult::Empty) => final(self).lines_view() == old(self).lines_view()
                    && final(self).dir_view() == old(self).dir_view(),
                Ok(CommandResult::DirectoryChanged(d)) => final(self).lines_view() == old(
                    self,
                ).lines_view() && final(self).dir_view() == d@,
                Err(e) => final(self).lines_view() == old(self).lines_view().push(
                    LAUNCH_FAILURE_PREFIX@ + e@,
                ) && final(self).dir_view() == old(self).dir_view(),
            },
    {
        let ghost before = self.lines_view();
        match result {
            Ok(CommandResult::Output(t)) => {
                let lines = split_lines(t.as_str());
                proof {
                    reveal_strlit("");
                }
                self.scrollback.append_lines(&lines, "");
                assert(prefixed(""@, lines_of(t@)) =~= lines_of(t@));
                assert(self.lines_view().subrange(0, before.len() as int) =~= before);
            },
            Ok(CommandResult::Error(t)) => {
                let lines = split_lines(t.as_str());
                self.scrollback.append_lines(&lines, ERROR_PREFIX);
                assert(self.lines_view().subrange(0, before.len() as int) =~= before);
            },
            Ok(CommandResult::Empty) => {
                assert(self.lines_view().subrange(0, before.len() as int) =~= before);
            },
            Ok(CommandResult::DirectoryChanged(d)) => {
                self.current_dir = d;
                assert(self.lines_view().subrange(0, before.len() as int) =~= before);
            },
            Err(e) => {
                let mut line = String::from_str(LAUNCH_FAILURE_PREFIX);
                line.append(e.as_str());
                self.scrollback.append_line(line);
                assert(self.lines_view().subrange(0, before.len() as int) =~= before);
            },
        }
    }

    /// Submits the input line (the Enter key).
    fn submit<E: CommandExecutor>(&mut self, executor: &E) -> (r: Step)
        requires
            old(self).wf(),
        ensures
            final(self).wf(),
            Terminal::key_spec(*old(self), *final(self), Key::Enter, r),
    {
        let command = trim(self.input.as_text());
        let mut echo = self.get_prompt();
        echo.append(command.as_str());
        self.scrollback.append_line(echo);
        let ghost echoed = self.lines_view();
        if command == String::from_str(EXIT_COMMAND) {
            self.scrollback.append_line(String::from_str(FAREWELL));
            self.running = false;
            return Step::Exit;
        }
        let is_empty = command.as_str().unicode_len() == 0;
        self.history.record(command.clone());
        self.input.clear();
        if !is_empty {
            let result = executor.execute(command.as_str(), self.current_dir.as_str());
            self.apply_command_result(result);
        } else {
            assert(self.lines_view().subrange(0, echoed.len() as int) =~= echoed);
        }
        Step::Redraw
    }

    /// Handles one input event and says what the caller does next (see
    /// `key_spec`).
    pub fn process_key<E: CommandExecutor>(&mut self, key: Key, executor: &E) -> (r: Step)
        requires
            old(self).wf(),
        ensures
            final(self).wf(),
            Terminal::key_spec(*old(self), *final(self), key, r),
    {
        match key {
            Key::Esc => {
                self.scrollback.append_line(String::from_str(FAREWELL));
                self.running = false;
                Step::Exit
            },
            Key::Enter => self.submit(executor),
            Key::Char(c) => {
                self.input.push(c);
                Step::Redraw
            },
            Key::Backspace => {
                self.input.pop_back();
                Step::Redraw
            },
            Key::Up { ctrl } => {
                if ctrl {
                    self.scrollback.scroll_up(1);
                    Step::Redraw
                } else {
                    match self.history.older() {
                        Some(e) => {
                            self.input.replace(e.as_str());
                            Step::Redraw
                        },
                        None => Step::Idle,
                    }
                }
            },
            Key::Down { ctrl } => {
                if ctrl {
                    self.scrollback.scroll_down(1);
                } else {
                    match self.history.newer() {
                        Recall::Entry(e) => self.input.replace(e.as_str()),
                        Recall::Clear => self.input.clear(),
                        Recall::Unchanged => {},
                    }
                }
                Step::Redraw
            },
            Key::PageUp => {
                let half = self.scrollback.viewport_height() / 2;
                self.scrollback.scroll_up(half);
                Step::Redraw
            },
            Key::PageDown => {
                let half = self.scrollback.viewport_height() / 2;
                self.scrollback.scroll_down(half);
                Step::Redraw
            },
            Key::Resize { rows } => {
                let height = if rows > 1 {
                    rows - 1
                } else {
                    1
                };
                self.scrollback.resize(height);
                Step::Redraw
            },
            Key::Other => Step::Idle,
        }
    }
}

} // verus!
