//! Data that the dashboard loads and the operations it asks for.
use vstd::prelude::*;

use crate::cli::Command;

verus! {

/// Result of capturing a tmux pane.
#[derive(Debug, Clone, PartialEq, Eq)]
pub struct TmuxCaptureResult {
    pub content: String,
    pub window_exists: bool,
}

/// A task operation that the dashboard can execute.
#[derive(Debug, Clone, PartialEq, Eq)]
pub enum TaskAction {
    Start(String),
    Stop(String),
    Reset(String),
    Next(String),
    Retry(String),
    Skip(String),
    Done(String),
    Fail(String),
    Block(String),
}

/// The word shown after a task operation succeeds.
pub open spec fn action_label(a: TaskAction) -> Seq<char> {
    match a {
        TaskAction::Start(_) => "Started"@,
        TaskAction::Stop(_) => "Stopped"@,
        TaskAction::Reset(_) => "Reset"@,
        TaskAction::Next(_) => "Advanced"@,
        TaskAction::Retry(_) => "Retrying"@,
        TaskAction::Skip(_) => "Skipped"@,
        TaskAction::Done(_) => "Marked done"@,
        TaskAction::Fail(_) => "Marked failed"@,
        TaskAction::Block(_) => "Marked blocked"@,
    }
}

impl TaskAction {
    pub fn label(&self) -> (r: &'static str)
        ensures
            r@ == action_label(*self),
    {
        match self {
            TaskAction::Start(_) => "Started",
            TaskAction::Stop(_) => "Stopped",
            TaskAction::Reset(_) => "Reset",
            TaskAction::Next(_) => "Advanced",
            TaskAction::Retry(_) => "Retrying",
            TaskAction::Skip(_) => "Skipped",
            TaskAction::Done(_) => "Marked done",
            TaskAction::Fail(_) => "Marked failed",
            TaskAction::Block(_) => "Marked blocked",
        }
    }
}

/// The command a task operation runs: start, stop, full reset, `done` for
/// next and done, reset of the step for retry. Skip, fail and block have
/// no command.
pub fn command_for(action: &TaskAction) -> (c: Option<Command>)
    ensures
        match *action {
            TaskAction::Start(n) => c == Some(Command::Start { task: n, reset: false }),
            TaskAction::Stop(n) => c == Some(Command::Stop { task: n }),
            TaskAction::Reset(n) => c == Some(Command::Reset { task: n, step: false }),
            TaskAction::Next(n) => c == Some(Command::Done { task: n, message: None }),
            TaskAction::Retry(n) => c == Some(Command::Reset { task: n, step: true }),
            TaskAction::Done(n) => c == Some(Command::Done { task: n, message: None }),
            _ => c is None,
        },
{
    match action {
        TaskAction::Start(n) => Some(Command::Start { task: n.clone(), reset: false }),
        TaskAction::Stop(n) => Some(Command::Stop { task: n.clone() }),
        TaskAction::Reset(n) => Some(Command::Reset { task: n.clone(), step: false }),
        TaskAction::Next(n) => Some(Command::Done { task: n.clone(), message: None }),
        TaskAction::Retry(n) => Some(Command::Reset { task: n.clone(), step: true }),
        TaskAction::Done(n) => Some(Command::Done { task: n.clone(), message: None }),
        _ => None,
    }
}

} // verus!
