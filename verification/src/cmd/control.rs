//! Preconditions of stopping and resetting a task.
use vstd::prelude::*;

use crate::cmd::start::is_conflict;
use crate::error::PawlError;
use crate::model::state::{status_name, TaskState, TaskStatus};
use crate::text::owned;

verus! {

fn conflict(task: &str, status: &str, message: String) -> (e: PawlError)
    ensures
        e matches PawlError::StateConflict { task: t, status: s, message: m } && t@ == task@ && s@
            == status@ && m == message,
{
    PawlError::StateConflict { task: owned(task), status: owned(status), message }
}

/// The conflict, if any, that keeps a task from being stopped.
pub open spec fn stop_conflict(task: Seq<char>, state: Option<TaskState>) -> Option<
    (Seq<char>, Seq<char>),
> {
    match state {
        None => Some(("pending"@, "not started. Use 'pawl start "@ + task + "' to begin"@)),
        Some(s) => if s.status is Running || s.status is Waiting {
            None
        } else {
            Some((status_name(s.status), "not running"@))
        },
    }
}

/// Checks that a task can be stopped (it must be running or waiting) and
/// gives the step at which it stops.
pub fn check_stop(task: &str, state: &Option<TaskState>) -> (r: Result<usize, PawlError>)
    ensures
        match stop_conflict(task@, *state) {
            Some(c) => r matches Err(e) && is_conflict(e, task@, c),
            None => r == Ok::<usize, PawlError>(state->0.current_step),
        },
{
    match state {
        None => {
            let mut m = owned("not started. Use 'pawl start ");
            m.append(task);
            m.append("' to begin");
            Err(conflict(task, "pending", m))
        },
        Some(s) => match s.status {
            TaskStatus::Running | TaskStatus::Waiting => Ok(s.current_step),
            _ => Err(conflict(task, s.status.as_str(), owned("not running"))),
        },
    }
}

/// The conflict, if any, that keeps the current step of a task from being
/// reset and retried.
pub open spec fn step_reset_conflict(
    task: Seq<char>,
    state: Option<TaskState>,
    workflow_len: nat,
) -> Option<(Seq<char>, Seq<char>)> {
    match state {
        None => Some(("pending"@, "not started"@)),
        Some(s) => if s.current_step >= workflow_len {
            Some(("completed"@, "use 'pawl reset "@ + task + "' for full reset"@))
        } else {
            match s.status {
                TaskStatus::Failed | TaskStatus::Stopped | TaskStatus::Waiting => None,
                TaskStatus::Running => Some(("running"@, "already running"@)),
                TaskStatus::Completed => Some(
                    ("completed"@, "use 'pawl reset "@ + task + "' for full reset"@),
                ),
                TaskStatus::Pending => Some(
                    ("pending"@, "not started. Use 'pawl start "@ + task + "'"@),
                ),
            }
        },
    }
}

/// Checks that the current step of a task can be reset (the task is
/// failed, stopped or waiting at a step of the workflow) and gives the step.
pub fn check_step_reset(task: &str, state: &Option<TaskState>, workflow_len: usize) -> (r: Result<
    usize,
    PawlError,
>)
    ensures
        match step_reset_conflict(task@, *state, workflow_len as nat) {
            Some(c) => r matches Err(e) && is_conflict(e, task@, c),
            None => r == Ok::<usize, PawlError>(state->0.current_step),
        },
{
    let s = match state {
        None => return Err(conflict(task, "pending", owned("not started"))),
        Some(s) => s,
    };
    let step_idx = s.current_step;
    if step_idx >= workflow_len {
        let mut m = owned("use 'pawl reset ");
        m.append(task);
        m.append("' for full reset");
        return Err(conflict(task, "completed", m));
    }
    match s.status {
        TaskStatus::Failed | TaskStatus::Stopped | TaskStatus::Waiting => Ok(step_idx),
        TaskStatus::Running => Err(conflict(task, "running", owned("already running"))),
        TaskStatus::Completed => {
            let mut m = owned("use 'pawl reset ");
            m.append(task);
            m.append("' for full reset");
            Err(conflict(task, "completed", m))
        },
        TaskStatus::Pending => {
            let mut m = owned("not started. Use 'pawl start ");
            m.append(task);
            m.append("'");
            Err(conflict(task, "pending", m))
        },
    }
}

/// A full reset interrupts the task's viewport only when the task is running.
pub fn reset_interrupts_viewport(state: &Option<TaskState>) -> (b: bool)
    ensures
        b == (*state matches Some(s) && s.status == TaskStatus::Running),
{
    match state {
        Some(s) => s.status == TaskStatus::Running,
        None => false,
    }
}

/// The current step can be retried exactly when the task has halted at a
/// step of its workflow: failed, stopped, or waiting there (after a yield
/// or a failure left for a manual decision).
pub proof fn law_step_retry_allowed(task: Seq<char>, state: Option<TaskState>, workflow_len: nat)
    ensures
        step_reset_conflict(task, state, workflow_len) is None <==> (state matches Some(s) && s.current_step
            < workflow_len && (s.status == TaskStatus::Failed || s.status == TaskStatus::Stopped
            || s.status == TaskStatus::Waiting)),
{
}

} // verus!
