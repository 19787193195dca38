//! What `done` does for a task in a given state.
use vstd::prelude::*;

use crate::model::event::{fold_events, Event, Timestamp};
use crate::model::state::{status_name, StepStatus, TaskState, TaskStatus};
use crate::text::owned;

verus! {

/// The two things `done` can mean.
#[derive(Debug, PartialEq, Eq)]
pub enum DoneAction {
    /// A running step (in a viewport) reports that it finished: settle it
    /// like any finished step, with exit code 0.
    Settle(usize),
    /// A waiting step is approved: log `StepResumed` and continue.
    Approve(usize),
}

pub open spec fn not_started_message(task: Seq<char>) -> Seq<char> {
    "Task '"@ + task + "' has not been started. Use 'pawl start "@ + task + "' to begin."@
}

pub open spec fn cannot_finish_message(task: Seq<char>, status: TaskStatus) -> Seq<char> {
    "Task '"@ + task + "' is "@ + status_name(status) + ". Cannot mark as done."@
}

/// Decides what `done` does: settle a running step, approve a waiting one,
/// or refuse with a message.
pub fn done_action(task: &str, state: &Option<TaskState>) -> (r: Result<DoneAction, String>)
    ensures
        match *state {
            None => r matches Err(m) && m@ == not_started_message(task@),
            Some(s) => match s.status {
                TaskStatus::Running => r == Ok::<DoneAction, String>(
                    DoneAction::Settle(s.current_step),
                ),
                TaskStatus::Waiting => r == Ok::<DoneAction, String>(
                    DoneAction::Approve(s.current_step),
                ),
                _ => r matches Err(m) && m@ == cannot_finish_message(task@, s.status),
            },
        },
{
    match state {
        None => {
            let mut m = owned("Task '");
            m.append(task);
            m.append("' has not been started. Use 'pawl start ");
            m.append(task);
            m.append("' to begin.");
            Err(m)
        },
        Some(s) => match s.status {
            TaskStatus::Running => Ok(DoneAction::Settle(s.current_step)),
            TaskStatus::Waiting => Ok(DoneAction::Approve(s.current_step)),
            _ => {
                let mut m = owned("Task '");
                m.append(task);
                m.append("' is ");
                m.append(s.status.as_str());
                m.append(". Cannot mark as done.");
                Err(m)
            },
        },
    }
}

/// After a step has been settled, the task is retrying it when it runs
/// again at the same step; its viewport must then stay open.
pub fn is_retrying(state: &Option<TaskState>, step_idx: usize) -> (b: bool)
    ensures
        b == (*state matches Some(s) && s.status == TaskStatus::Running && s.current_step
            == step_idx),
{
    match state {
        Some(s) => s.status == TaskStatus::Running && s.current_step == step_idx,
        None => false,
    }
}

/// The viewport runner works on a step only while the task runs at that
/// very step; otherwise `done` (or a reset) has already dealt with it.
pub fn runner_owns_step(state: &Option<TaskState>, step_idx: usize) -> (b: bool)
    ensures
        b == (*state matches Some(s) && s.status == TaskStatus::Running && s.current_step
            == step_idx),
{
    is_retrying(state, step_idx)
}

/// A gate pauses a run. After a yield at a gate step the run waits at
/// that step, its message "gate"; after the resume that `done` logs, it
/// runs at the following step, and that gate step counts as a success.
pub proof fn law_gate_holds_until_done(
    log: Seq<Event>,
    i: usize,
    reason: String,
    ts1: Timestamp,
    ts2: Timestamp,
)
    requires
        fold_events(None, log) is Some,
        reason@ == "gate"@,
    ensures
        ({
            let y = log.push(Event::StepYielded { ts: ts1, step: i, reason });
            fold_events(None, y) matches Some(w) && w.status == TaskStatus::Waiting
                && w.current_step == i && w.message == Some("gate"@)
        }),
        ({
            let r = log.push(Event::StepYielded { ts: ts1, step: i, reason }).push(
                Event::StepResumed { ts: ts2, step: i },
            );
            fold_events(None, r) matches Some(x) && x.status == TaskStatus::Running
                && x.current_step == i + 1 && x.step_status.contains_key(i) && x.step_status[i]
                == StepStatus::Success
        }),
{
    let y = log.push(Event::StepYielded { ts: ts1, step: i, reason });
    let r = y.push(Event::StepResumed { ts: ts2, step: i });
    assert(y.drop_last() =~= log);
    assert(r.drop_last() =~= y);
}

} // verus!
