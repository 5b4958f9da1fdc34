//! State of the bounded terminal drawer embedded at the bottom of the TUI.

use vstd::prelude::*;
use std::collections::VecDeque;
use crate::text::{push_char, push_str, str_trim, trim};

verus! {

/// A bounded scrollable terminal drawer embedded at the bottom of the TUI.
#[derive(Debug)]
pub struct PtyDrawer {
    pub is_open: bool,
    pub input_buffer: String,
    pub history_lines: VecDeque<String>,
    pub max_history: usize,
    pub scroll_offset: usize,
}

/// History after appending `line` to `h` under the bound `max`.
pub open spec fn appended_history(h: Seq<String>, max: nat, line: String) -> Seq<String> {
    if h.len() >= max && h.len() > 0 {
        h.drop_first().push(line)
    } else {
        h.push(line)
    }
}

/// The history holds at most `max_history` lines and the bound admits at least one line.
pub open spec fn pty_drawer_wf(d: PtyDrawer) -> bool {
    d.max_history >= 1 && d.history_lines@.len() <= d.max_history
}

impl Default for PtyDrawer {
    /// The drawer that `new` gives.
    fn default() -> (r: Self)
        ensures
            !r.is_open,
            r.input_buffer@.len() == 0,
            r.history_lines@.len() == 2,
            r.max_history == 1000,
            r.scroll_offset == 0,
            pty_drawer_wf(r),
    {
        Self::new()
    }
}

impl PtyDrawer {
    pub fn new() -> (r: Self)
        ensures
            !r.is_open,
            r.input_buffer@.len() == 0,
            r.history_lines@.len() == 2,
            r.history_lines@[0]@ == "⚡ Embedded Terminal Drawer initialized. Type commands below."@,
            r.history_lines@[1]@ == "👉 Press Enter to run, Ctrl+T or Esc to close."@,
            r.max_history == 1000,
            r.scroll_offset == 0,
            pty_drawer_wf(r),
    {
        let mut history: VecDeque<String> = VecDeque::new();
        history.push_back("⚡ Embedded Terminal Drawer initialized. Type commands below.".to_owned());
        history.push_back("👉 Press Enter to run, Ctrl+T or Esc to close.".to_owned());
        Self {
            is_open: false,
            input_buffer: String::new(),
            history_lines: history,
            max_history: 1000,
            scroll_offset: 0,
        }
    }

    /// Toggles the open/closed state of the terminal drawer.
    pub fn toggle(&mut self)
        ensures
            final(self).is_open == !old(self).is_open,
            final(self).input_buffer == old(self).input_buffer,
            final(self).history_lines == old(self).history_lines,
            final(self).max_history == old(self).max_history,
            final(self).scroll_offset == old(self).scroll_offset,
    {
        self.is_open = !self.is_open;
    }

    /// Appends an output line into the scrollable history buffer, dropping the oldest line
    /// when the buffer is full.
    pub fn append_output(&mut self, line: String)
        ensures
            final(self).history_lines@ == appended_history(
                old(self).history_lines@,
                old(self).max_history as nat,
                line,
            ),
            final(self).is_open == old(self).is_open,
            final(self).input_buffer == old(self).input_buffer,
            final(self).max_history == old(self).max_history,
            final(self).scroll_offset == old(self).scroll_offset,
            pty_drawer_wf(*old(self)) ==> pty_drawer_wf(*final(self)),
    {
        if self.history_lines.len() >= self.max_history {
            let _ = self.history_lines.pop_front();
        }
        self.history_lines.push_back(line);
    }

    /// Clears the terminal output buffer.
    pub fn clear(&mut self)
        ensures
            final(self).history_lines@.len() == 1,
            final(self).history_lines@[0]@ == "⚡ Terminal buffer cleared."@,
            final(self).is_open == old(self).is_open,
            final(self).input_buffer == old(self).input_buffer,
            final(self).max_history == old(self).max_history,
            final(self).scroll_offset == old(self).scroll_offset,
    {
        self.history_lines.clear();
        self.history_lines.push_back("⚡ Terminal buffer cleared.".to_owned());
    }

    /// Handles a character keystroke into the command line buffer.
    pub fn handle_char(&mut self, c: char)
        ensures
            final(self).input_buffer@ == old(self).input_buffer@.push(c),
            final(self).history_lines == old(self).history_lines,
            final(self).is_open == old(self).is_open,
            final(self).max_history == old(self).max_history,
    {
        push_char(&mut self.input_buffer, c);
    }

    /// Handles a backspace keystroke.
    pub fn handle_backspace(&mut self)
        ensures
            final(self).input_buffer@ == if old(self).input_buffer@.len() > 0 {
                old(self).input_buffer@.drop_last()
            } else {
                old(self).input_buffer@
            },
            final(self).history_lines == old(self).history_lines,
            final(self).is_open == old(self).is_open,
            final(self).max_history == old(self).max_history,
    {
        let _ = crate::text::pop_char(&mut self.input_buffer);
    }

    /// Submits the current command line and returns the trimmed command if it is non-empty;
    /// the command is echoed into the history as `$ <command>` and the input is cleared.
    pub fn submit_command(&mut self) -> (r: Option<String>)
        ensures
            trim(old(self).input_buffer@).len() == 0 ==> r is None && *final(self) == *old(self),
            trim(old(self).input_buffer@).len() > 0 ==> {
                &&& r matches Some(cmd) && cmd@ == trim(old(self).input_buffer@)
                &&& final(self).input_buffer@.len() == 0
                &&& exists|echo: String|
                    echo@ == seq!['$', ' '] + trim(old(self).input_buffer@)
                        && final(self).history_lines@ == appended_history(
                        old(self).history_lines@,
                        old(self).max_history as nat,
                        echo,
                    )
            },
            final(self).is_open == old(self).is_open,
            final(self).max_history == old(self).max_history,
            pty_drawer_wf(*old(self)) ==> pty_drawer_wf(*final(self)),
    {
        let trimmed = str_trim(self.input_buffer.as_str());
        if trimmed.as_str().is_empty() {
            return None;
        }
        let mut echo = String::new();
        push_char(&mut echo, '$');
        push_char(&mut echo, ' ');
        push_str(&mut echo, trimmed.as_str());
        assert(echo@ =~= seq!['$', ' '] + trimmed@);
        let ghost e = echo;
        self.append_output(echo);
        self.input_buffer = String::new();
        Some(trimmed)
    }
}

/// The history bound is kept by every append: a well-formed drawer stays well-formed and
/// never holds more than `max_history` lines.
pub proof fn lemma_history_bounded(h: Seq<String>, max: nat, line: String)
    requires
        max >= 1,
        h.len() <= max,
    ensures
        appended_history(h, max, line).len() <= max,
        appended_history(h, max, line).last() == line,
{
}

} // verus!
