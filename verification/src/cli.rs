//! The command line: the commands and their arguments.
use vstd::prelude::*;

verus! {

/// A parsed command line.
#[derive(Debug, Clone, PartialEq, Eq)]
pub struct Cli {
    pub command: Command,
}

/// The commands.
#[derive(Debug, Clone, PartialEq, Eq)]
pub enum Command {
    /// Initialize a new workflow project.
    Init,
    /// List all tasks.
    List,
    /// Start a task (after a reset, with `reset`).
    Start { task: String, reset: bool },
    /// Show the status of one task, or of all.
    Status { task: Option<String> },
    /// Stop a running task.
    Stop { task: String },
    /// Reset a task, or only its current step (`step`).
    Reset { task: String, step: bool },
    /// Wait for tasks to reach one of the `until` statuses.
    Wait { tasks: Vec<String>, until: String, timeout: u64, interval: u64, any: bool },
    /// Show a task's log.
    Log { task: String, step: Option<usize>, all: bool },
    /// Stream the events of all tasks, or one.
    Events { task: Option<String>, follow: bool, event_type: Option<String> },
    /// Mark the current step done, or approve a waiting step.
    Done { task: String, message: Option<String> },
    /// Serve the status API (and a UI page) over HTTP.
    Serve { port: u16, ui: Option<String> },
    /// Run a step's command inside its viewport.
    Run { task: String, step: usize },
}

} // verus!
