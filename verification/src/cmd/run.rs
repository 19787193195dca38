//! The decisions of the process that runs a step inside a viewport: whether
//! it still owns the step, what it runs, and what it records when the
//! command exits.
use vstd::prelude::*;

use crate::cmd::done::runner_owns_step;
use crate::cmd::start::StepRecord;
use crate::model::config::Step;
use crate::model::state::{TaskState, TaskStatus};
use crate::text::{decimal, owned, usize_to_decimal};

verus! {

/// What the viewport runner does when it starts.
#[derive(Debug, PartialEq, Eq)]
pub enum RunnerStart {
    /// The step is no longer this runner's (finished, reset or moved on):
    /// exit quietly.
    Quit,
    /// The step has no command.
    Fail(String),
    /// Run this command.
    Run(String),
}

/// The runner's start: it runs the step's command while the task runs at
/// that step of its workflow.
pub fn runner_start(state: &Option<TaskState>, step_idx: usize, workflow: &Vec<Step>) -> (r:
    RunnerStart)
    ensures
        !(state matches Some(s) && s.status == TaskStatus::Running && s.current_step == step_idx)
            || step_idx >= workflow.len() ==> r is Quit,
        (state matches Some(s) && s.status == TaskStatus::Running && s.current_step == step_idx)
            && step_idx < workflow.len() ==> match workflow@[step_idx as int].run {
            Some(c) => r matches RunnerStart::Run(k) && k@ == c@,
            None => r matches RunnerStart::Fail(m) && m@ == "Step "@ + decimal(step_idx as int)
                + " has no run command"@,
        },
{
    if !runner_owns_step(state, step_idx) || step_idx >= workflow.len() {
        return RunnerStart::Quit;
    }
    match &workflow[step_idx].run {
        Some(c) => RunnerStart::Run(c.clone()),
        None => {
            let mut m = owned("Step ");
            m.append(usize_to_decimal(step_idx).as_str());
            m.append(" has no run command");
            RunnerStart::Fail(m)
        },
    }
}

/// The exit code of the command: its own, or 128 when a signal ended it.
pub open spec fn exit_code_from(code: Option<i32>) -> i32 {
    match code {
        Some(c) => c,
        None => 128,
    }
}

/// What the runner records when the command exits: its exit code and no
/// captured output (the output went to the viewport).
pub fn viewport_record(code: Option<i32>) -> (r: StepRecord)
    ensures
        r.exit_code == exit_code_from(code),
        r.duration is None,
        r.stdout is None,
        r.stderr is None,
{
    let exit_code = match code {
        Some(c) => c,
        None => 128,
    };
    StepRecord { exit_code, duration: None, stdout: None, stderr: None }
}

} // verus!
