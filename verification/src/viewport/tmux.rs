//! The tmux viewport: one window per task in the workflow's session.
use vstd::prelude::*;

use crate::text::{owned, str_eq};
use crate::util::tmux::{
    quoted_text, send_interrupt_command, send_keys_command, session_exists_command, target,
    window_exists_command, kill_window_command,
};
use crate::util::tmux::concat_all;

verus! {

/// A tmux session whose windows are named after tasks.
#[derive(Debug, Clone)]
pub struct TmuxViewport {
    session: String,
}

impl View for TmuxViewport {
    type V = Seq<char>;

    closed spec fn view(&self) -> Seq<char> {
        self.session@
    }
}

/// `tmux new-session` for the viewport's session, in a directory.
pub open spec fn new_session_text(session: Seq<char>, cwd: Seq<char>) -> Seq<char> {
    "tmux new-session -d -s '"@ + session + "' -c '"@ + cwd + "'"@
}

/// `tmux new-window` (in the background) for a task, in a directory.
pub open spec fn new_window_text(session: Seq<char>, name: Seq<char>, cwd: Seq<char>) -> Seq<char> {
    "tmux new-window -d -t '"@ + session + "' -n '"@ + name + "' -c '"@ + cwd + "'"@
}

impl TmuxViewport {
    pub fn new(session: &str) -> (v: Self)
        ensures
            v@ == session@,
    {
        TmuxViewport { session: owned(session) }
    }

    /// Succeeds exactly when the session exists.
    pub fn session_exists_command(&self) -> (c: String)
        ensures
            c@ == "tmux has-session -t '"@ + self@ + "' 2>/dev/null"@,
    {
        session_exists_command(self.session.as_str())
    }

    /// Succeeds exactly when the task has a window.
    pub fn exists_command(&self, name: &str) -> (c: String)
        ensures
            c@ == "tmux list-windows -t '"@ + self@ + "' -F '#{window_name}' 2>/dev/null | grep -qx '"@
                + name@ + "'"@,
    {
        window_exists_command(self.session.as_str(), name)
    }

    /// The commands that open a task's window, given whether the session
    /// and the window exist already: the session is made when missing, then
    /// the window when missing.
    pub fn open_commands(&self, name: &str, cwd: &str, session_exists: bool, window_exists: bool) -> (r:
        Vec<String>)
        ensures
            r@.map_values(|c: String| c@) == (if session_exists {
                seq![]
            } else {
                seq![new_session_text(self@, cwd@)]
            }) + (if window_exists {
                seq![]
            } else {
                seq![new_window_text(self@, name@, cwd@)]
            }),
    {
        let mut r: Vec<String> = Vec::new();
        if !session_exists {
            let mut c = owned("tmux new-session -d -s '");
            c.append(self.session.as_str());
            c.append("' -c '");
            c.append(cwd);
            c.append("'");
            r.push(c);
        }
        if !window_exists {
            let mut c = owned("tmux new-window -d -t '");
            c.append(self.session.as_str());
            c.append("' -n '");
            c.append(name);
            c.append("' -c '");
            c.append(cwd);
            c.append("'");
            r.push(c);
        }
        assert(r@.map_values(|c: String| c@) =~= (if session_exists {
            seq![]
        } else {
            seq![new_session_text(self@, cwd@)]
        }) + (if window_exists {
            seq![]
        } else {
            seq![new_window_text(self@, name@, cwd@)]
        }));
        r
    }

    /// The command that types text into a task's window and presses Enter;
    /// the text `"\x03"` (Control-C) interrupts the window instead.
    pub fn execute_command(&self, name: &str, text: &str) -> (c: String)
        ensures
            text@ == "\x03"@ ==> c@ == "tmux send-keys -t '"@ + target(self@, name@) + "' C-c"@,
            text@ != "\x03"@ ==> c@ == "tmux send-keys -t '"@ + target(self@, name@) + "' '"@
                + quoted_text(text@) + "' && tmux send-keys -t '"@ + target(self@, name@)
                + "' Enter"@,
    {
        if str_eq(text, "\x03") {
            send_interrupt_command(self.session.as_str(), name)
        } else {
            send_keys_command(self.session.as_str(), name, text)
        }
    }

    /// The command that closes a task's window, when it exists.
    pub fn close_command(&self, name: &str, window_exists: bool) -> (c: Option<String>)
        ensures
            window_exists ==> (c matches Some(k) && k@ == "tmux kill-window -t '"@ + target(
                self@,
                name@,
            ) + "'"@),
            !window_exists ==> c is None,
    {
        if window_exists {
            Some(kill_window_command(self.session.as_str(), name))
        } else {
            None
        }
    }
}

} // verus!
