//! Task state: the projection that replaying a task's event log yields.
use std::collections::HashMap;
use vstd::prelude::*;

use crate::error::PawlError;
use crate::model::event::Timestamp;
use crate::text::{ascii_lower, chars_of, to_ascii_lower, to_ascii_lower_vec, vec_eq};

verus! {

/// Overall status of a task.
#[derive(Debug, Clone, Copy, PartialEq, Eq, Structural)]
pub enum TaskStatus {
    Pending,
    Running,
    Waiting,
    Completed,
    Failed,
    Stopped,
}

impl Default for TaskStatus {
    fn default() -> (s: Self)
        ensures
            s == TaskStatus::Pending,
    {
        TaskStatus::Pending
    }
}

/// Whether `target` can be reached from `from` without a reset: a status
/// reaches itself; nothing leaves `Completed`; `Failed` and `Stopped` only
/// reach each other (back to `Pending` takes a reset); every other status
/// reaches all.
pub open spec fn reachable(from: TaskStatus, target: TaskStatus) -> bool {
    if from == target {
        true
    } else {
        match from {
            TaskStatus::Completed => false,
            TaskStatus::Failed | TaskStatus::Stopped => target is Failed || target is Stopped,
            _ => true,
        }
    }
}

/// The lowercase name of a status.
pub open spec fn status_name(s: TaskStatus) -> Seq<char> {
    match s {
        TaskStatus::Pending => "pending"@,
        TaskStatus::Running => "running"@,
        TaskStatus::Waiting => "waiting"@,
        TaskStatus::Completed => "completed"@,
        TaskStatus::Failed => "failed"@,
        TaskStatus::Stopped => "stopped"@,
    }
}

/// The status whose name is `t`, compared without regard to ASCII case.
pub open spec fn status_from_name(t: Seq<char>) -> Option<TaskStatus> {
    let l = to_ascii_lower(t);
    if l == "pending"@ {
        Some(TaskStatus::Pending)
    } else if l == "running"@ {
        Some(TaskStatus::Running)
    } else if l == "waiting"@ {
        Some(TaskStatus::Waiting)
    } else if l == "completed"@ {
        Some(TaskStatus::Completed)
    } else if l == "failed"@ {
        Some(TaskStatus::Failed)
    } else if l == "stopped"@ {
        Some(TaskStatus::Stopped)
    } else {
        None
    }
}

/// The message given for a status name that is not one.
pub open spec fn invalid_status_message(t: Seq<char>) -> Seq<char> {
    "Invalid status '"@ + t
        + "'. Valid values: pending, running, waiting, completed, failed, stopped"@
}

impl TaskStatus {
    /// Whether `target` is reachable from `self` without a reset.
    pub fn can_reach(self, target: Self) -> (b: bool)
        ensures
            b == reachable(self, target),
    {
        if self == target {
            return true;
        }
        match self {
            TaskStatus::Completed => false,
            TaskStatus::Failed | TaskStatus::Stopped => {
                target == TaskStatus::Failed || target == TaskStatus::Stopped
            },
            _ => true,
        }
    }

    /// The lowercase name, as the status is shown and stored.
    pub fn as_str(&self) -> (r: &'static str)
        ensures
            r@ == status_name(*self),
    {
        match self {
            TaskStatus::Pending => "pending",
            TaskStatus::Running => "running",
            TaskStatus::Waiting => "waiting",
            TaskStatus::Completed => "completed",
            TaskStatus::Failed => "failed",
            TaskStatus::Stopped => "stopped",
        }
    }

    /// The name as an owned string.
    pub fn to_string(&self) -> (r: String)
        ensures
            r@ == status_name(*self),
    {
        String::from_str(self.as_str())
    }
}

/// Parses a status name, ignoring case.
pub fn parse_status(s: &str) -> (r: Result<TaskStatus, PawlError>)
    ensures
        r matches Ok(st) ==> status_from_name(s@) == Some(st),
        r matches Err(e) ==> status_from_name(s@) is None && (e matches PawlError::Validation {
            message,
        } && message@ == invalid_status_message(s@)),
        status_from_name(s@) is None ==> r is Err,
{
    let l = to_ascii_lower_vec(&chars_of(s));
    if vec_eq(&l, &chars_of("pending")) {
        Ok(TaskStatus::Pending)
    } else if vec_eq(&l, &chars_of("running")) {
        Ok(TaskStatus::Running)
    } else if vec_eq(&l, &chars_of("waiting")) {
        Ok(TaskStatus::Waiting)
    } else if vec_eq(&l, &chars_of("completed")) {
        Ok(TaskStatus::Completed)
    } else if vec_eq(&l, &chars_of("failed")) {
        Ok(TaskStatus::Failed)
    } else if vec_eq(&l, &chars_of("stopped")) {
        Ok(TaskStatus::Stopped)
    } else {
        let mut message = String::from_str("Invalid status '");
        message.append(s);
        message.append("'. Valid values: pending, running, waiting, completed, failed, stopped");
        Err(PawlError::Validation { message })
    }
}

impl std::str::FromStr for TaskStatus {
    type Err = PawlError;

    fn from_str(s: &str) -> (r: Result<Self, PawlError>)
        ensures
            r matches Ok(st) ==> status_from_name(s@) == Some(st),
            r matches Err(e) ==> status_from_name(s@) is None && (e matches PawlError::Validation {
                message,
            } && message@ == invalid_status_message(s@)),
            status_from_name(s@) is None ==> r is Err,
    {
        parse_status(s)
    }
}

/// Outcome recorded for a single step.
#[derive(Debug, Clone, Copy, PartialEq, Eq, Structural)]
pub enum StepStatus {
    Success,
    Failed,
    Skipped,
}

pub open spec fn step_status_name(s: StepStatus) -> Seq<char> {
    match s {
        StepStatus::Success => "success"@,
        StepStatus::Failed => "failed"@,
        StepStatus::Skipped => "skipped"@,
    }
}

impl StepStatus {
    pub fn as_str(&self) -> (r: &'static str)
        ensures
            r@ == step_status_name(*self),
    {
        match self {
            StepStatus::Success => "success",
            StepStatus::Failed => "failed",
            StepStatus::Skipped => "skipped",
        }
    }
}

/// Task state, reconstructed from the event log by `replay`.
#[derive(Debug, Clone)]
pub struct TaskState {
    /// Current step index (0-based).
    pub current_step: usize,
    pub status: TaskStatus,
    pub started_at: Option<Timestamp>,
    pub updated_at: Option<Timestamp>,
    /// Recorded outcome of each step, by step index.
    pub step_status: HashMap<usize, StepStatus>,
    /// Optional message, such as the reason a step is waiting.
    pub message: Option<String>,
    /// Identifier of this run.
    pub run_id: String,
}

/// The mathematical value of a `TaskState`.
pub struct TaskStateView {
    pub current_step: nat,
    pub status: TaskStatus,
    pub started_at: Option<Timestamp>,
    pub updated_at: Option<Timestamp>,
    pub step_status: Map<usize, StepStatus>,
    pub message: Option<Seq<char>>,
    pub run_id: Seq<char>,
}

pub open spec fn opt_view(o: Option<String>) -> Option<Seq<char>> {
    match o {
        Some(s) => Some(s@),
        None => None,
    }
}

impl View for TaskState {
    type V = TaskStateView;

    open spec fn view(&self) -> TaskStateView {
        TaskStateView {
            current_step: self.current_step as nat,
            status: self.status,
            started_at: self.started_at,
            updated_at: self.updated_at,
            step_status: self.step_status@,
            message: opt_view(self.message),
            run_id: self.run_id@,
        }
    }
}

pub open spec fn opt_state_view(o: Option<TaskState>) -> Option<TaskStateView> {
    match o {
        Some(s) => Some(s@),
        None => None,
    }
}

/// A status's name reads back as that status.
pub proof fn law_status_name_round_trip(s: TaskStatus)
    ensures
        status_from_name(status_name(s)) == Some(s),
{
    reveal_strlit("pending");
    reveal_strlit("running");
    reveal_strlit("waiting");
    reveal_strlit("completed");
    reveal_strlit("failed");
    reveal_strlit("stopped");
    let n = status_name(s);
    assert forall|i: int| 0 <= i < n.len() implies ascii_lower(#[trigger] n[i]) == n[i] by {
        assert('a' <= n[i] && n[i] <= 'z');
    }
    assert(to_ascii_lower(n) =~= n);
    assert("pending"@[0] == 'p' && "running"@[0] == 'r' && "waiting"@[0] == 'w'
        && "completed"@[0] == 'c' && "failed"@[0] == 'f' && "stopped"@[0] == 's');
}

/// A status can always stay where it is; a completed task reaches nothing
/// else without a reset, and a failed or stopped task reaches only failed
/// or stopped.
pub proof fn law_reachability(from: TaskStatus, target: TaskStatus)
    ensures
        reachable(from, from),
        from == TaskStatus::Completed && target != from ==> !reachable(from, target),
        (from == TaskStatus::Failed || from == TaskStatus::Stopped) ==> (reachable(from, target) <==> (
        target == TaskStatus::Failed || target == TaskStatus::Stopped)),
{
}

/// Only a finished task is restricted: a pending, running or waiting task
/// can still reach every status.
pub proof fn law_unfinished_reaches_everything(from: TaskStatus, target: TaskStatus)
    requires
        from == TaskStatus::Pending || from == TaskStatus::Running || from == TaskStatus::Waiting,
    ensures
        reachable(from, target),
{
}

} // verus!
