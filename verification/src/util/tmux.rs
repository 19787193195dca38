//! tmux: the shell commands that drive it, and what their output means.
//! The commands are run by the caller; here they are written and read.
use vstd::prelude::*;

use crate::text::{chars_of, i64_to_decimal, owned, replace_all, replace_all_vec, str_eq, string_of, trim, trim_vec, decimal};
use crate::util::shell::CommandResult;

verus! {

/// Result of capturing the content of a pane.
#[derive(Debug, Clone, PartialEq, Eq)]
pub enum CaptureResult {
    /// The window exists and its content was captured (may be empty).
    Content(String),
    /// The window no longer exists.
    WindowGone,
}

/// A shell command assembled from pieces.
fn words(parts: Vec<&str>) -> (r: String)
    ensures
        r@ == concat_all(parts@.map_values(|p: &str| p@)),
{
    let ghost pv = parts@.map_values(|p: &str| p@);
    let mut r = String::new();
    let mut i: usize = 0;
    while i < parts.len()
        invariant
            i <= parts.len(),
            pv == parts@.map_values(|p: &str| p@),
            r@ == concat_all(pv.take(i as int)),
        decreases parts.len() - i,
    {
        r.append(parts[i]);
        assert(pv.take(i + 1).drop_last() =~= pv.take(i as int));
        i = i + 1;
    }
    assert(pv.take(i as int) =~= pv);
    r
}

/// The pieces one after the other.
pub open spec fn concat_all(parts: Seq<Seq<char>>) -> Seq<char>
    decreases parts.len(),
{
    if parts.len() == 0 {
        seq![]
    } else {
        concat_all(parts.drop_last()) + parts.last()
    }
}

/// `session:window`, the target of most commands.
pub open spec fn target(session: Seq<char>, window: Seq<char>) -> Seq<char> {
    session + ":"@ + window
}

/// A single-quoted shell word: each `'` in the text becomes `'\''`.
pub open spec fn quoted_text(text: Seq<char>) -> Seq<char> {
    replace_all(text, "'"@, "'\\''"@)
}

/// Succeeds exactly when the session exists.
pub fn session_exists_command(session: &str) -> (c: String)
    ensures
        c@ == "tmux has-session -t '"@ + session@ + "' 2>/dev/null"@,
{
    let c = words(vec!["tmux has-session -t '", session, "' 2>/dev/null"]);
    proof {
        reveal_with_fuel(concat_all, 4);
    }
    c
}

/// Succeeds exactly when the session has a window of that name.
pub fn window_exists_command(session: &str, window: &str) -> (c: String)
    ensures
        c@ == "tmux list-windows -t '"@ + session@ + "' -F '#{window_name}' 2>/dev/null | grep -qx '"@
            + window@ + "'"@,
{
    let c = words(
        vec![
            "tmux list-windows -t '",
            session,
            "' -F '#{window_name}' 2>/dev/null | grep -qx '",
            window,
            "'",
        ],
    );
    proof {
        reveal_with_fuel(concat_all, 6);
    }
    c
}

/// ` -c 'dir'` when a start directory is given.
pub open spec fn dir_option(dir: Option<Seq<char>>) -> Seq<char> {
    match dir {
        Some(d) => " -c '"@ + d + "'"@,
        None => seq![],
    }
}

fn append_dir(cmd: &mut String, dir: Option<&str>)
    ensures
        final(cmd)@ == old(cmd)@ + dir_option(
            match dir {
                Some(d) => Some(d@),
                None => None,
            },
        ),
{
    if let Some(d) = dir {
        cmd.append(" -c '");
        cmd.append(d);
        cmd.append("'");
    }
}

/// Creates a detached session.
pub fn create_session_command(name: &str, dir: Option<&str>) -> (c: String)
    ensures
        c@ == "tmux new-session -d -s '"@ + name@ + "'"@ + dir_option(
            match dir {
                Some(d) => Some(d@),
                None => None,
            },
        ),
{
    let mut c = words(vec!["tmux new-session -d -s '", name, "'"]);
    proof {
        reveal_with_fuel(concat_all, 4);
    }
    append_dir(&mut c, dir);
    c
}

/// Creates a window in a session.
pub fn create_window_command(session: &str, window: &str, dir: Option<&str>) -> (c: String)
    ensures
        c@ == "tmux new-window -t '"@ + session@ + "' -n '"@ + window@ + "'"@ + dir_option(
            match dir {
                Some(d) => Some(d@),
                None => None,
            },
        ),
{
    let mut c = words(vec!["tmux new-window -t '", session, "' -n '", window, "'"]);
    proof {
        reveal_with_fuel(concat_all, 6);
    }
    append_dir(&mut c, dir);
    c
}

/// Types the keys into a window, then presses Enter.
pub fn send_keys_command(session: &str, window: &str, keys: &str) -> (c: String)
    ensures
        c@ == "tmux send-keys -t '"@ + target(session@, window@) + "' '"@ + quoted_text(keys@)
            + "' && tmux send-keys -t '"@ + target(session@, window@) + "' Enter"@,
{
    proof {
        reveal_strlit("'");
    }
    let escaped = string_of(&replace_all_vec(&chars_of(keys), &chars_of("'"), &chars_of("'\\''")));
    let c = words(
        vec![
            "tmux send-keys -t '",
            session,
            ":",
            window,
            "' '",
            escaped.as_str(),
            "' && tmux send-keys -t '",
            session,
            ":",
            window,
            "' Enter",
        ],
    );
    proof {
        reveal_with_fuel(concat_all, 12);
    }
    c
}

/// Sends Control-C to a window.
pub fn send_interrupt_command(session: &str, window: &str) -> (c: String)
    ensures
        c@ == "tmux send-keys -t '"@ + target(session@, window@) + "' C-c"@,
{
    let c = words(vec!["tmux send-keys -t '", session, ":", window, "' C-c"]);
    proof {
        reveal_with_fuel(concat_all, 6);
    }
    c
}

/// Brings a window to the front.
pub fn select_window_command(session: &str, window: &str) -> (c: String)
    ensures
        c@ == "tmux select-window -t '"@ + target(session@, window@) + "'"@,
{
    let c = words(vec!["tmux select-window -t '", session, ":", window, "'"]);
    proof {
        reveal_with_fuel(concat_all, 6);
    }
    c
}

/// Closes a window.
pub fn kill_window_command(session: &str, window: &str) -> (c: String)
    ensures
        c@ == "tmux kill-window -t '"@ + target(session@, window@) + "'"@,
{
    let c = words(vec!["tmux kill-window -t '", session, ":", window, "'"]);
    proof {
        reveal_with_fuel(concat_all, 6);
    }
    c
}

/// Prints the last `lines` lines of a window's pane, wrapped lines joined.
pub fn capture_pane_command(session: &str, window: &str, lines: usize) -> (c: String)
    requires
        lines <= i64::MAX,
    ensures
        c@ == "tmux capture-pane -t '"@ + target(session@, window@) + "' -p -J -S "@ + decimal(
            -(lines as int),
        ),
{
    let start: i64 = -(lines as i64);
    let s = i64_to_decimal(start);
    let c = words(vec!["tmux capture-pane -t '", session, ":", window, "' -p -J -S ", s.as_str()]);
    proof {
        reveal_with_fuel(concat_all, 7);
    }
    c
}

/// `tmux list-panes` for a window with a format.
pub open spec fn list_panes_text(session: Seq<char>, window: Seq<char>, format: Seq<char>) -> Seq<
    char,
> {
    "tmux list-panes -t '"@ + target(session, window) + "' -F '"@ + format + "' 2>/dev/null"@
}

/// Prints a format string for each pane of a window.
pub fn list_panes_command(session: &str, window: &str, format: &str) -> (c: String)
    ensures
        c@ == list_panes_text(session@, window@, format@),
{
    let c = words(
        vec!["tmux list-panes -t '", session, ":", window, "' -F '", format, "' 2>/dev/null"],
    );
    proof {
        reveal_with_fuel(concat_all, 8);
    }
    c
}

/// What a capture gives: the pane's content when the window exists and
/// the capture succeeded; otherwise the window is gone (it may have closed
/// between the check and the capture).
pub fn capture_pane(window_exists: bool, result: CommandResult) -> (r: CaptureResult)
    ensures
        r == (if window_exists && result.success {
            CaptureResult::Content(result.stdout)
        } else {
            CaptureResult::WindowGone
        }),
{
    if window_exists && result.success {
        CaptureResult::Content(result.stdout)
    } else {
        CaptureResult::WindowGone
    }
}

/// The command names that mean a pane is idle at a shell prompt.
pub open spec fn is_idle_shell(name: Seq<char>) -> bool {
    name == "bash"@ || name == "zsh"@ || name == "sh"@ || name == "fish"@ || name.len() == 0
}

/// Whether a pane runs a command: the pane listing (of
/// `#{pane_current_command}`) succeeded and names something other than an
/// idle shell. `result` is none when the listing could not be run.
pub fn pane_is_active(result: &Option<CommandResult>) -> (b: bool)
    ensures
        b == (match *result {
            Some(r) => r.success && !is_idle_shell(trim(r.stdout@)),
            None => false,
        }),
{
    match result {
        Some(r) => {
            if !r.success {
                return false;
            }
            let name = string_of(&trim_vec(&chars_of(r.stdout.as_str())));
            let idle = str_eq(name.as_str(), "bash") || str_eq(name.as_str(), "zsh") || str_eq(
                name.as_str(),
                "sh",
            ) || str_eq(name.as_str(), "fish") || name.as_str().unicode_len() == 0;
            !idle
        },
        None => false,
    }
}

/// The trimmed output of a command that succeeded with some output.
pub open spec fn nonempty_output(result: Option<CommandResult>) -> Option<Seq<char>> {
    match result {
        Some(r) => if r.success && trim(r.stdout@).len() > 0 {
            Some(trim(r.stdout@))
        } else {
            None
        },
        None => None,
    }
}

/// The trimmed output of a command when it succeeded and printed
/// something: a pane's process id, a session id, a transcript path.
pub fn output_value(result: &Option<CommandResult>) -> (r: Option<String>)
    ensures
        match r {
            Some(v) => nonempty_output(*result) == Some(v@),
            None => nonempty_output(*result) is None,
        },
{
    match result {
        Some(c) => {
            if !c.success {
                return None;
            }
            let t = trim_vec(&chars_of(c.stdout.as_str()));
            if t.len() == 0 {
                None
            } else {
                Some(string_of(&t))
            }
        },
        None => None,
    }
}

/// Prints the session id from the environment of a process (Linux).
pub fn session_id_from_environ_command(pid: &str) -> (c: String)
    ensures
        c@ == "cat /proc/"@ + pid@
            + "/environ 2>/dev/null | tr '\\0' '\\n' | grep '^CLAUDE_SESSION_ID=' | cut -d= -f2"@,
{
    let c = words(
        vec![
            "cat /proc/",
            pid,
            "/environ 2>/dev/null | tr '\\0' '\\n' | grep '^CLAUDE_SESSION_ID=' | cut -d= -f2",
        ],
    );
    proof {
        reveal_with_fuel(concat_all, 4);
    }
    c
}

/// The stage that comes next when the session id of a window is looked
/// up: each stage runs one command, whose result decides the next.
#[derive(Debug, PartialEq, Eq)]
pub enum SessionIdStep {
    /// Run this command; its result feeds the next stage.
    Run(String),
    /// The lookup ends with this answer.
    Done(Option<String>),
}

/// The lookup of the session id that an agent in a window runs under:
/// first whether the window exists, then the process id of its pane, then
/// the `CLAUDE_SESSION_ID` in that process's environment. `pid` is the pane
/// process id once known, `result` the result of the last command run
/// (none when it could not be run).
pub fn extract_session_id(
    session: &str,
    window: &str,
    window_exists: bool,
    pid_result: Option<&Option<CommandResult>>,
    environ_result: Option<&Option<CommandResult>>,
) -> (r: SessionIdStep)
    ensures
        if !window_exists {
            r == SessionIdStep::Done(None)
        } else {
            match pid_result {
                None => (r matches SessionIdStep::Run(c) && c@ == list_panes_text(
                    session@,
                    window@,
                    "#{pane_pid}"@,
                )),
                Some(p) => match nonempty_output(*p) {
                    None => r == SessionIdStep::Done(None),
                    Some(pid) => match environ_result {
                        None => (r matches SessionIdStep::Run(c) && c@ == "cat /proc/"@ + pid
                            + "/environ 2>/dev/null | tr '\\0' '\\n' | grep '^CLAUDE_SESSION_ID=' | cut -d= -f2"@),
                        Some(e) => (r matches SessionIdStep::Done(v) && match v {
                            Some(s) => nonempty_output(*e) == Some(s@),
                            None => nonempty_output(*e) is None,
                        }),
                    },
                },
            }
        },
{
    if !window_exists {
        return SessionIdStep::Done(None);
    }
    let p = match pid_result {
        None => return SessionIdStep::Run(list_panes_command(session, window, "#{pane_pid}")),
        Some(p) => p,
    };
    let pid = match output_value(p) {
        None => return SessionIdStep::Done(None),
        Some(pid) => pid,
    };
    match environ_result {
        None => SessionIdStep::Run(session_id_from_environ_command(pid.as_str())),
        Some(e) => SessionIdStep::Done(output_value(e)),
    }
}

} // verus!
