//! The append-only event log of a task and its replay into a `TaskState`.
use std::collections::HashMap;
use vstd::prelude::*;

use crate::model::state::{
    opt_state_view, StepStatus, TaskState, TaskStateView, TaskStatus,
};
use crate::text::{decimal, i64_to_decimal};

verus! {

broadcast use vstd::std_specs::hash::group_hash_axioms;

/// A point in time: seconds since the Unix epoch and the nanoseconds within
/// that second.
#[derive(Debug, Clone, Copy, PartialEq, Eq, Structural)]
pub struct Timestamp {
    pub secs: i64,
    pub nanos: u32,
}

/// The RFC 3339 text of a point in time in UTC, as chrono writes it; none
/// when chrono cannot represent the time.
pub uninterp spec fn rfc3339_text(secs: i64, nanos: u32) -> Option<Seq<char>>;

/// The RFC 3339 text of a timestamp (`DateTime::<Utc>::from_timestamp`,
/// then `to_rfc3339`).
#[verifier::external_body]
pub fn rfc3339(ts: Timestamp) -> (r: Option<String>)
    ensures
        match r {
            Some(t) => rfc3339_text(ts.secs, ts.nanos) == Some(t@),
            None => rfc3339_text(ts.secs, ts.nanos) is None,
        },
{
    chrono::DateTime::from_timestamp(ts.secs, ts.nanos).map(|d| d.to_rfc3339())
}

/// One entry of a task's event log.
///
/// `duration` holds the bit pattern of the step's wall-clock duration in
/// seconds (an `f64`), which the library carries without interpreting.
#[derive(Debug, Clone)]
pub enum Event {
    TaskStarted { ts: Timestamp, run_id: String },
    StepFinished {
        ts: Timestamp,
        step: usize,
        success: bool,
        exit_code: i32,
        duration: Option<u64>,
        stdout: Option<String>,
        stderr: Option<String>,
        verify_output: Option<String>,
    },
    StepYielded { ts: Timestamp, step: usize, reason: String },
    StepResumed { ts: Timestamp, step: usize },
    ViewportLaunched { ts: Timestamp, step: usize },
    StepSkipped { ts: Timestamp, step: usize },
    StepReset { ts: Timestamp, step: usize, auto: bool },
    TaskStopped { ts: Timestamp, step: usize },
    TaskReset { ts: Timestamp },
    ViewportLost { ts: Timestamp, step: usize },
}

/// The tag under which an event is stored.
pub open spec fn type_tag_of(e: Event) -> Seq<char> {
    match e {
        Event::TaskStarted { .. } => "task_started"@,
        Event::StepFinished { .. } => "step_finished"@,
        Event::StepYielded { .. } => "step_yielded"@,
        Event::StepResumed { .. } => "step_resumed"@,
        Event::ViewportLaunched { .. } => "viewport_launched"@,
        Event::StepSkipped { .. } => "step_skipped"@,
        Event::StepReset { .. } => "step_reset"@,
        Event::TaskStopped { .. } => "task_stopped"@,
        Event::TaskReset { .. } => "task_reset"@,
        Event::ViewportLost { .. } => "viewport_lost"@,
    }
}

/// When an event happened.
pub open spec fn ts_of(e: Event) -> Timestamp {
    match e {
        Event::TaskStarted { ts, .. } => ts,
        Event::StepFinished { ts, .. } => ts,
        Event::StepYielded { ts, .. } => ts,
        Event::StepResumed { ts, .. } => ts,
        Event::ViewportLaunched { ts, .. } => ts,
        Event::StepSkipped { ts, .. } => ts,
        Event::StepReset { ts, .. } => ts,
        Event::TaskStopped { ts, .. } => ts,
        Event::TaskReset { ts } => ts,
        Event::ViewportLost { ts, .. } => ts,
    }
}

/// The step an event is about, if any.
pub open spec fn step_of(e: Event) -> Option<usize> {
    match e {
        Event::TaskStarted { .. } | Event::TaskReset { .. } => None,
        Event::StepFinished { step, .. } => Some(step),
        Event::StepYielded { step, .. } => Some(step),
        Event::StepResumed { step, .. } => Some(step),
        Event::ViewportLaunched { step, .. } => Some(step),
        Event::StepSkipped { step, .. } => Some(step),
        Event::StepReset { step, .. } => Some(step),
        Event::TaskStopped { step, .. } => Some(step),
        Event::ViewportLost { step, .. } => Some(step),
    }
}

pub open spec fn bool_text(b: bool) -> Seq<char> {
    if b {
        "true"@
    } else {
        "false"@
    }
}

/// Event-specific variables for hook templates, other than the duration.
pub open spec fn extra_vars_of(e: Event) -> Seq<(Seq<char>, Seq<char>)> {
    match e {
        Event::StepFinished { success, exit_code, .. } => seq![
            ("success"@, bool_text(success)),
            ("exit_code"@, decimal(exit_code as int)),
        ],
        Event::TaskStarted { run_id, .. } => seq![("run_id"@, run_id@)],
        Event::StepYielded { reason, .. } => seq![("reason"@, reason@)],
        Event::StepReset { auto, .. } => seq![("auto"@, bool_text(auto))],
        _ => seq![],
    }
}

pub open spec fn pair_views(v: Seq<(String, String)>) -> Seq<(Seq<char>, Seq<char>)> {
    v.map_values(|p: (String, String)| (p.0@, p.1@))
}

fn bool_string(b: bool) -> (s: String)
    ensures
        s@ == bool_text(b),
{
    if b {
        String::from_str("true")
    } else {
        String::from_str("false")
    }
}

impl Event {
    /// The tag under which this event is stored.
    pub fn type_tag(&self) -> (r: &'static str)
        ensures
            r@ == type_tag_of(*self),
    {
        match self {
            Event::TaskStarted { .. } => "task_started",
            Event::StepFinished { .. } => "step_finished",
            Event::StepYielded { .. } => "step_yielded",
            Event::StepResumed { .. } => "step_resumed",
            Event::ViewportLaunched { .. } => "viewport_launched",
            Event::StepSkipped { .. } => "step_skipped",
            Event::StepReset { .. } => "step_reset",
            Event::TaskStopped { .. } => "task_stopped",
            Event::TaskReset { .. } => "task_reset",
            Event::ViewportLost { .. } => "viewport_lost",
        }
    }

    /// The step index this event is about, if any.
    pub fn step_index(&self) -> (r: Option<usize>)
        ensures
            r == step_of(*self),
    {
        match self {
            Event::TaskStarted { .. } | Event::TaskReset { .. } => None,
            Event::StepFinished { step, .. } => Some(*step),
            Event::StepYielded { step, .. } => Some(*step),
            Event::StepResumed { step, .. } => Some(*step),
            Event::ViewportLaunched { step, .. } => Some(*step),
            Event::StepSkipped { step, .. } => Some(*step),
            Event::StepReset { step, .. } => Some(*step),
            Event::TaskStopped { step, .. } => Some(*step),
            Event::ViewportLost { step, .. } => Some(*step),
        }
    }

    /// When the event happened.
    pub fn ts(&self) -> (r: Timestamp)
        ensures
            r == ts_of(*self),
    {
        match self {
            Event::TaskStarted { ts, .. } => *ts,
            Event::StepFinished { ts, .. } => *ts,
            Event::StepYielded { ts, .. } => *ts,
            Event::StepResumed { ts, .. } => *ts,
            Event::ViewportLaunched { ts, .. } => *ts,
            Event::StepSkipped { ts, .. } => *ts,
            Event::StepReset { ts, .. } => *ts,
            Event::TaskStopped { ts, .. } => *ts,
            Event::TaskReset { ts } => *ts,
            Event::ViewportLost { ts, .. } => *ts,
        }
    }

    /// Event-specific variables for hook template expansion (`${exit_code}`,
    /// `${reason}`, ...), in a fixed order. The step duration, a floating
    /// point value, is formatted and added by the caller.
    pub fn extra_vars(&self) -> (r: Vec<(String, String)>)
        ensures
            pair_views(r@) == extra_vars_of(*self),
    {
        let mut vars: Vec<(String, String)> = Vec::new();
        match self {
            Event::StepFinished { success, exit_code, .. } => {
                vars.push((String::from_str("success"), bool_string(*success)));
                vars.push((String::from_str("exit_code"), i64_to_decimal(*exit_code as i64)));
            },
            Event::TaskStarted { run_id, .. } => {
                vars.push((String::from_str("run_id"), run_id.clone()));
            },
            Event::StepYielded { reason, .. } => {
                vars.push((String::from_str("reason"), reason.clone()));
            },
            Event::StepReset { auto, .. } => {
                vars.push((String::from_str("auto"), bool_string(*auto)));
            },
            _ => {},
        }
        assert(pair_views(vars@) =~= extra_vars_of(*self));
        vars
    }
}

// ---------------------------------------------------------------------------
// Replay
// ---------------------------------------------------------------------------

/// The state right after a `TaskStarted` event.
pub open spec fn started_state(ts: Timestamp, run_id: Seq<char>) -> TaskStateView {
    TaskStateView {
        current_step: 0,
        status: TaskStatus::Running,
        started_at: Some(ts),
        updated_at: Some(ts),
        step_status: Map::empty(),
        message: None,
        run_id,
    }
}

/// What a step event does to an existing state.
pub open spec fn apply_to_state(s: TaskStateView, e: Event) -> TaskStateView {
    match e {
        Event::StepFinished { ts, step, success, .. } => if success {
            TaskStateView {
                updated_at: Some(ts),
                step_status: s.step_status.insert(step, StepStatus::Success),
                current_step: (step + 1) as nat,
                status: TaskStatus::Running,
                message: None,
                ..s
            }
        } else {
            TaskStateView {
                updated_at: Some(ts),
                step_status: s.step_status.insert(step, StepStatus::Failed),
                status: TaskStatus::Failed,
                message: None,
                ..s
            }
        },
        Event::StepYielded { ts, step, reason } => TaskStateView {
            updated_at: Some(ts),
            current_step: step as nat,
            status: TaskStatus::Waiting,
            message: Some(reason@),
            ..s
        },
        Event::StepResumed { ts, step } => TaskStateView {
            updated_at: Some(ts),
            step_status: s.step_status.insert(step, StepStatus::Success),
            current_step: (step + 1) as nat,
            status: TaskStatus::Running,
            ..s
        },
        Event::ViewportLaunched { ts, .. } => TaskStateView {
            updated_at: Some(ts),
            status: TaskStatus::Running,
            ..s
        },
        Event::StepSkipped { ts, step } => TaskStateView {
            updated_at: Some(ts),
            step_status: s.step_status.insert(step, StepStatus::Skipped),
            current_step: (step + 1) as nat,
            status: TaskStatus::Running,
            ..s
        },
        Event::StepReset { ts, step, .. } => TaskStateView {
            updated_at: Some(ts),
            current_step: step as nat,
            step_status: s.step_status.remove(step),
            status: TaskStatus::Running,
            message: None,
            ..s
        },
        Event::TaskStopped { ts, .. } => TaskStateView {
            updated_at: Some(ts),
            status: TaskStatus::Stopped,
            ..s
        },
        Event::ViewportLost { ts, step } => TaskStateView {
            updated_at: Some(ts),
            step_status: s.step_status.insert(step, StepStatus::Failed),
            status: TaskStatus::Failed,
            message: Some("viewport lost"@),
            ..s
        },
        _ => s,
    }
}

/// One step of replay: `TaskStarted` begins a fresh run, `TaskReset`
/// forgets the run, and any other event changes the current run, if there
/// is one.
pub open spec fn apply_event(st: Option<TaskStateView>, e: Event) -> Option<TaskStateView> {
    match e {
        Event::TaskStarted { ts, run_id } => Some(started_state(ts, run_id@)),
        Event::TaskReset { .. } => None,
        _ => match st {
            Some(s) => Some(apply_to_state(s, e)),
            None => None,
        },
    }
}

/// The events applied in order, starting from `init`.
pub open spec fn fold_events(init: Option<TaskStateView>, events: Seq<Event>) -> Option<
    TaskStateView,
>
    decreases events.len(),
{
    if events.len() == 0 {
        init
    } else {
        apply_event(fold_events(init, events.drop_last()), events.last())
    }
}

/// A running task whose current step lies past the last step is completed.
pub open spec fn complete_if_done(st: Option<TaskStateView>, workflow_len: nat) -> Option<
    TaskStateView,
> {
    match st {
        Some(s) => if s.current_step >= workflow_len && s.status == TaskStatus::Running {
            Some(TaskStateView { status: TaskStatus::Completed, ..s })
        } else {
            Some(s)
        },
        None => None,
    }
}

/// The state that a log describes: the events folded from nothing, with
/// completion derived at the end.
pub open spec fn replay_spec(events: Seq<Event>, workflow_len: nat) -> Option<TaskStateView> {
    complete_if_done(fold_events(None, events), workflow_len)
}

/// Every step index in the log leaves room for the step after it.
pub open spec fn steps_bounded(events: Seq<Event>) -> bool {
    forall|i: int|
        0 <= i < events.len() ==> (#[trigger] step_of(events[i]) matches Some(s) ==> s
            < usize::MAX)
}

fn apply(state: Option<TaskState>, e: &Event) -> (r: Option<TaskState>)
    requires
        step_of(*e) matches Some(s) ==> s < usize::MAX,
    ensures
        opt_state_view(r) == apply_event(opt_state_view(state), *e),
{
    match e {
        Event::TaskStarted { ts, run_id } => {
            let r = TaskState {
                current_step: 0,
                status: TaskStatus::Running,
                started_at: Some(*ts),
                updated_at: Some(*ts),
                step_status: HashMap::new(),
                message: None,
                run_id: run_id.clone(),
            };
            assert(r@ == started_state(*ts, run_id@));
            Some(r)
        },
        Event::TaskReset { .. } => None,
        _ => match state {
            None => None,
            Some(mut s) => {
                let ghost old_s = s@;
                match e {
                    Event::StepFinished { ts, step, success, .. } => {
                        s.updated_at = Some(*ts);
                        if *success {
                            s.step_status.insert(*step, StepStatus::Success);
                            s.current_step = *step + 1;
                            s.status = TaskStatus::Running;
                            s.message = None;
                        } else {
                            s.step_status.insert(*step, StepStatus::Failed);
                            s.status = TaskStatus::Failed;
                            s.message = None;
                        }
                    },
                    Event::StepYielded { ts, step, reason } => {
                        s.updated_at = Some(*ts);
                        s.current_step = *step;
                        s.status = TaskStatus::Waiting;
                        s.message = Some(reason.clone());
                    },
                    Event::StepResumed { ts, step } => {
                        s.updated_at = Some(*ts);
                        s.step_status.insert(*step, StepStatus::Success);
                        s.current_step = *step + 1;
                        s.status = TaskStatus::Running;
                    },
                    Event::ViewportLaunched { ts, .. } => {
                        s.updated_at = Some(*ts);
                        s.status = TaskStatus::Running;
                    },
                    Event::StepSkipped { ts, step } => {
                        s.updated_at = Some(*ts);
                        s.step_status.insert(*step, StepStatus::Skipped);
                        s.current_step = *step + 1;
                        s.status = TaskStatus::Running;
                    },
                    Event::StepReset { ts, step, .. } => {
                        s.updated_at = Some(*ts);
                        s.current_step = *step;
                        s.step_status.remove(step);
                        s.status = TaskStatus::Running;
                        s.message = None;
                    },
                    Event::TaskStopped { ts, .. } => {
                        s.updated_at = Some(*ts);
                        s.status = TaskStatus::Stopped;
                    },
                    Event::ViewportLost { ts, step } => {
                        s.updated_at = Some(*ts);
                        s.step_status.insert(*step, StepStatus::Failed);
                        s.status = TaskStatus::Failed;
                        s.message = Some(String::from_str("viewport lost"));
                    },
                    _ => {},
                }
                assert(s@ == apply_to_state(old_s, *e));
                Some(s)
            },
        },
    }
}

/// Replays events to reconstruct the task state. Returns `None` when no
/// `TaskStarted` follows the last `TaskReset`.
pub fn replay(events: &[Event], workflow_len: usize) -> (r: Option<TaskState>)
    requires
        steps_bounded(events@),
    ensures
        opt_state_view(r) == replay_spec(events@, workflow_len as nat),
{
    let mut state: Option<TaskState> = None;
    let mut i: usize = 0;
    while i < events.len()
        invariant
            i <= events.len(),
            steps_bounded(events@),
            opt_state_view(state) == fold_events(None, events@.take(i as int)),
        decreases events.len() - i,
    {
        proof {
            assert(events@.take(i + 1).drop_last() =~= events@.take(i as int));
        }
        assert(step_of(events@[i as int]) matches Some(s) ==> s < usize::MAX);
        state = apply(state, &events[i]);
        i = i + 1;
    }
    assert(events@.take(i as int) =~= events@);
    match state {
        Some(mut s) => {
            if s.current_step >= workflow_len && s.status == TaskStatus::Running {
                s.status = TaskStatus::Completed;
            }
            Some(s)
        },
        None => None,
    }
}

// ---------------------------------------------------------------------------
// Laws of replay
// ---------------------------------------------------------------------------

/// Replay is a left fold: replaying a log in two parts gives the same state
/// as replaying it at once.
pub proof fn law_replay_is_fold(init: Option<TaskStateView>, a: Seq<Event>, b: Seq<Event>)
    ensures
        fold_events(init, a + b) == fold_events(fold_events(init, a), b),
    decreases b.len(),
{
    if b.len() == 0 {
        assert(a + b =~= a);
    } else {
        law_replay_is_fold(init, a, b.drop_last());
        assert((a + b).drop_last() =~= a + b.drop_last());
        assert((a + b).last() == b.last());
    }
}

/// A task reset at the end of the log leaves no run behind.
pub proof fn law_reset_forgets_run(log: Seq<Event>, ts: Timestamp, workflow_len: nat)
    ensures
        replay_spec(log.push(Event::TaskReset { ts }), workflow_len) is None,
{
    assert(log.push(Event::TaskReset { ts }).drop_last() =~= log);
}

/// A task start at the end of the log begins a fresh run at step 0, with no
/// recorded step results, whatever came before.
pub proof fn law_start_begins_fresh_run(
    log: Seq<Event>,
    ts: Timestamp,
    run_id: String,
    workflow_len: nat,
)
    ensures
        replay_spec(log.push(Event::TaskStarted { ts, run_id }), workflow_len) == complete_if_done(
            Some(started_state(ts, run_id@)),
            workflow_len,
        ),
{
    assert(log.push(Event::TaskStarted { ts, run_id }).drop_last() =~= log);
}

/// Nothing logged before a task reset affects the replayed state.
pub proof fn law_history_before_reset_is_irrelevant(
    before: Seq<Event>,
    ts: Timestamp,
    after: Seq<Event>,
    workflow_len: nat,
)
    ensures
        replay_spec(before.push(Event::TaskReset { ts }) + after, workflow_len) == replay_spec(
            after,
            workflow_len,
        ),
{
    law_replay_is_fold(None, before.push(Event::TaskReset { ts }), after);
    assert(before.push(Event::TaskReset { ts }).drop_last() =~= before);
}

/// Events logged while no run exists (before any start, or after a reset)
/// other than a start leave the task without state.
pub proof fn law_no_run_without_start(events: Seq<Event>, workflow_len: nat)
    requires
        forall|i: int| 0 <= i < events.len() ==> !(events[i] is TaskStarted),
    ensures
        replay_spec(events, workflow_len) is None,
    decreases events.len(),
{
    if events.len() > 0 {
        law_no_run_without_start(events.drop_last(), workflow_len);
        assert(!(events.last() is TaskStarted));
    }
}

/// A replayed run is completed exactly when its current step lies past the
/// last step and it would otherwise be running.
pub proof fn law_completed_when_past_last_step(events: Seq<Event>, workflow_len: nat)
    requires
        fold_events(None, events) is Some,
    ensures
        ({
            let raw = fold_events(None, events)->0;
            let s = replay_spec(events, workflow_len)->0;
            &&& (s.status == TaskStatus::Completed) == ((raw.status == TaskStatus::Running
                && raw.current_step >= workflow_len) || raw.status == TaskStatus::Completed)
            &&& s.current_step == raw.current_step
            &&& s.step_status == raw.step_status
        }),
{
}

/// Whether some task start in the log comes after every task reset.
pub open spec fn started_since_reset(events: Seq<Event>) -> bool {
    exists|i: int|
        #![trigger events[i]]
        0 <= i < events.len() && events[i] is TaskStarted && forall|j: int|
            #![trigger events[j]]
            i < j < events.len() ==> !(events[j] is TaskReset)
}

/// A log describes a run exactly when a task start follows its last task
/// reset (or, without a reset, when it holds a start at all).
pub proof fn law_state_exactly_after_start(events: Seq<Event>, workflow_len: nat)
    ensures
        replay_spec(events, workflow_len) is Some <==> started_since_reset(events),
    decreases events.len(),
{
    if events.len() > 0 {
        let init = events.drop_last();
        let e = events.last();
        let n = events.len() - 1;
        law_state_exactly_after_start(init, workflow_len);
        assert(events[n] == e);
        if e is TaskStarted {
            assert(started_since_reset(events)) by {
                assert(events[n] is TaskStarted);
            }
        } else if e is TaskReset {
            if started_since_reset(events) {
                let i = choose|i: int|
                    #![trigger events[i]]
                    0 <= i < events.len() && events[i] is TaskStarted && forall|j: int|
                        #![trigger events[j]]
                        i < j < events.len() ==> !(events[j] is TaskReset);
                assert(i < n);
                assert(!(events[n] is TaskReset));
            }
        } else {
            if started_since_reset(events) {
                let i = choose|i: int|
                    #![trigger events[i]]
                    0 <= i < events.len() && events[i] is TaskStarted && forall|j: int|
                        #![trigger events[j]]
                        i < j < events.len() ==> !(events[j] is TaskReset);
                assert(i < n);
                assert(init[i] == events[i]);
                assert forall|j: int| i < j < init.len() implies !(#[trigger] init[j] is TaskReset) by {
                    assert(init[j] == events[j]);
                }
                assert(started_since_reset(init));
            }
            if started_since_reset(init) {
                let i = choose|i: int|
                    #![trigger init[i]]
                    0 <= i < init.len() && init[i] is TaskStarted && forall|j: int|
                        #![trigger init[j]]
                        i < j < init.len() ==> !(init[j] is TaskReset);
                assert(events[i] == init[i]);
                assert forall|j: int| i < j < events.len() implies !(#[trigger] events[j] is TaskReset) by {
                    if j < n {
                        assert(init[j] == events[j]);
                    }
                }
                assert(started_since_reset(events));
            }
        }
    }
}

/// A replayed run never stays running past its last step.
pub proof fn law_never_running_past_last_step(events: Seq<Event>, workflow_len: nat)
    ensures
        replay_spec(events, workflow_len) matches Some(s) ==> (s.current_step >= workflow_len
            ==> s.status != TaskStatus::Running),
{
}

// ---------------------------------------------------------------------------
// Retries
// ---------------------------------------------------------------------------

/// Whether `e` ends the retry history of `step` when the log is read backwards:
/// a task start, a task reset, or a manual reset of that step.
pub open spec fn ends_retry_history(e: Event, step: usize) -> bool {
    match e {
        Event::TaskStarted { .. } | Event::TaskReset { .. } => true,
        Event::StepReset { step: s, auto, .. } => s == step && !auto,
        _ => false,
    }
}

/// Number of automatic resets of `step` since the last task start, task
/// reset, or manual reset of that step.
pub open spec fn auto_retries(events: Seq<Event>, step: usize) -> nat
    decreases events.len(),
{
    if events.len() == 0 {
        0
    } else {
        let e = events.last();
        if ends_retry_history(e, step) {
            0
        } else if e matches Event::StepReset { step: s, auto: true, .. } && s == step {
            auto_retries(events.drop_last(), step) + 1
        } else {
            auto_retries(events.drop_last(), step)
        }
    }
}

/// Counts automatic retries of `step_idx` in the current run.
pub fn count_auto_retries(events: &[Event], step_idx: usize) -> (n: usize)
    ensures
        n == auto_retries(events@, step_idx),
{
    let mut count: usize = 0;
    let mut i = events.len();
    assert(events@.take(i as int) =~= events@);
    while i > 0
        invariant
            i <= events.len(),
            count <= events.len() - i,
            auto_retries(events@, step_idx) == count + auto_retries(
                events@.take(i as int),
                step_idx,
            ),
        decreases i,
    {
        let ghost t = events@.take(i as int);
        assert(t.drop_last() =~= events@.take(i - 1));
        assert(t.last() == events@[i - 1]);
        match &events[i - 1] {
            Event::TaskStarted { .. } | Event::TaskReset { .. } => {
                return count;
            },
            Event::StepReset { step, auto, .. } => {
                if *step == step_idx {
                    if !*auto {
                        return count;
                    }
                    count = count + 1;
                }
            },
            _ => {},
        }
        i = i - 1;
    }
    count
}


/// Each automatic reset of a step adds one to its retry count.
pub proof fn law_auto_reset_counts_one_more(log: Seq<Event>, ts: Timestamp, step: usize)
    ensures
        auto_retries(log.push(Event::StepReset { ts, step, auto: true }), step) == auto_retries(
            log,
            step,
        ) + 1,
{
    assert(log.push(Event::StepReset { ts, step, auto: true }).drop_last() =~= log);
}

/// A manual reset of a step, a task start and a task reset each clear the
/// step's retry count.
pub proof fn law_manual_reset_clears_retries(log: Seq<Event>, e: Event, step: usize)
    requires
        ends_retry_history(e, step),
    ensures
        auto_retries(log.push(e), step) == 0,
{
}

} // verus!
