//! Decisions of the step runner: what to do next, how a finished step is
//! judged, and what gets recorded for it.
use vstd::prelude::*;

use crate::model::config::{max_retries_of, Step};
use crate::model::event::{auto_retries, count_auto_retries, Event, Timestamp};
use crate::model::state::{TaskState, TaskStatus};
use crate::error::PawlError;
use crate::text::{decimal, i64_to_decimal, join, join_strings, owned, str_eq, usize_to_decimal};

verus! {

/// How a finished step turned out, before its failure policy is applied.
#[derive(Debug, PartialEq, Eq)]
pub enum Outcome {
    Success,
    ManualNeeded,
    Failure { feedback: String },
}

/// What a step's configuration says to do on failure.
#[derive(Debug, PartialEq, Eq)]
pub enum FailPolicy {
    Terminal,
    Retry { can_retry: bool },
    Manual,
}

/// The routing decision for a finished step.
#[derive(Debug, PartialEq, Eq)]
pub enum Verdict {
    Advance,
    Yield { reason: &'static str },
    Retry,
    Fail,
}

/// The six rules of the decision table.
pub open spec fn decides(outcome: Outcome, policy: FailPolicy, v: Verdict) -> bool {
    match outcome {
        Outcome::Success => v is Advance,
        Outcome::ManualNeeded => v matches Verdict::Yield { reason } && reason@ == "verify_manual"@,
        Outcome::Failure { .. } => match policy {
            FailPolicy::Retry { can_retry: true } => v is Retry,
            FailPolicy::Manual => v matches Verdict::Yield { reason } && reason@
                == "on_fail_manual"@,
            _ => v is Fail,
        },
    }
}

/// Pure decision function: outcome and failure policy to verdict.
pub fn decide(outcome: Outcome, policy: FailPolicy) -> (v: Verdict)
    ensures
        decides(outcome, policy, v),
{
    match outcome {
        Outcome::Success => Verdict::Advance,
        Outcome::ManualNeeded => Verdict::Yield { reason: "verify_manual" },
        Outcome::Failure { .. } => match policy {
            FailPolicy::Retry { can_retry: true } => Verdict::Retry,
            FailPolicy::Manual => Verdict::Yield { reason: "on_fail_manual" },
            _ => Verdict::Fail,
        },
    }
}

/// The failure policy a step's configuration and the log give.
pub open spec fn fail_policy_of(step: Step, events: Seq<Event>, step_idx: usize) -> FailPolicy {
    match step.on_fail {
        Some(s) => if s@ == "retry"@ {
            FailPolicy::Retry {
                can_retry: auto_retries(events, step_idx) < max_retries_of(step),
            }
        } else if s@ == "manual"@ {
            FailPolicy::Manual
        } else {
            FailPolicy::Terminal
        },
        None => FailPolicy::Terminal,
    }
}

/// Failure policy of a step: retry while the automatic retries since the
/// run began stay under the step's limit, wait for a decision, or stop.
pub fn derive_fail_policy(step: &Step, events: &[Event], step_idx: usize) -> (p: FailPolicy)
    ensures
        p == fail_policy_of(*step, events@, step_idx),
{
    match &step.on_fail {
        Some(s) => {
            if str_eq(s.as_str(), "retry") {
                let count = count_auto_retries(events, step_idx);
                FailPolicy::Retry { can_retry: count < step.effective_max_retries() }
            } else if str_eq(s.as_str(), "manual") {
                FailPolicy::Manual
            } else {
                FailPolicy::Terminal
            }
        },
        None => FailPolicy::Terminal,
    }
}


// ---------------------------------------------------------------------------
// Verification of a finished step
// ---------------------------------------------------------------------------

/// Result of a step's verifier.
#[derive(Debug, PartialEq, Eq)]
pub enum VerifyResult {
    Passed,
    ManualNeeded,
    Failed { feedback: String },
}

/// What a step's `verify` setting asks for.
#[derive(Debug, PartialEq, Eq)]
pub enum VerifyPlan {
    /// No verifier: the step passes.
    Pass,
    /// "manual": a person must approve.
    Manual,
    /// A shell command to run (before variable expansion).
    Command(String),
}

pub fn verify_plan(step: &Step) -> (p: VerifyPlan)
    ensures
        step.verify is None ==> p is Pass,
        step.verify matches Some(v) ==> (if v@ == "manual"@ {
            p is Manual
        } else {
            p matches VerifyPlan::Command(c) && c@ == v@
        }),
{
    match &step.verify {
        None => VerifyPlan::Pass,
        Some(v) => {
            if str_eq(v.as_str(), "manual") {
                VerifyPlan::Manual
            } else {
                VerifyPlan::Command(v.clone())
            }
        },
    }
}

/// Feedback from a failed verifier: its stdout, then its stderr, with a
/// line feed between when both are non-empty.
pub open spec fn verify_feedback_of(stdout: Seq<char>, stderr: Seq<char>) -> Seq<char> {
    if stderr.len() == 0 {
        stdout
    } else if stdout.len() == 0 {
        stderr
    } else {
        stdout + "\n"@ + stderr
    }
}

/// Judges a verifier command from its exit status and output.
pub fn verify_result(success: bool, stdout: &str, stderr: &str) -> (r: VerifyResult)
    ensures
        success ==> r is Passed,
        !success ==> (r matches VerifyResult::Failed { feedback } && feedback@
            == verify_feedback_of(stdout@, stderr@)),
{
    if success {
        return VerifyResult::Passed;
    }
    let mut feedback = String::new();
    if !stdout.is_empty() {
        feedback.append(stdout);
    }
    if !stderr.is_empty() {
        if !feedback.as_str().is_empty() {
            feedback.append("\n");
        }
        feedback.append(stderr);
    }
    VerifyResult::Failed { feedback }
}

/// Combines a step's exit code and its verifier into an outcome and the
/// verifier output to record.
pub open spec fn exit_failure_message(exit_code: i32) -> Seq<char> {
    "Exit code: "@ + decimal(exit_code as int)
}

pub fn combine(exit_code: i32, verify: Option<VerifyResult>) -> (r: (Outcome, Option<String>))
    requires
        exit_code == 0 ==> verify is Some,
    ensures
        exit_code != 0 ==> r.1 is None && (r.0 matches Outcome::Failure { feedback } && feedback@
            == exit_failure_message(exit_code)),
        exit_code == 0 ==> match verify->0 {
            VerifyResult::Passed => r.0 is Success && r.1 is None,
            VerifyResult::ManualNeeded => r.0 is ManualNeeded && r.1 is None,
            VerifyResult::Failed { feedback } => r.0 == (Outcome::Failure { feedback })
                && r.1 == Some(feedback),
        },
{
    if exit_code != 0 {
        let mut feedback = owned("Exit code: ");
        let code = i64_to_decimal(exit_code as i64);
        feedback.append(code.as_str());
        return (Outcome::Failure { feedback }, None);
    }
    match verify {
        Some(VerifyResult::Passed) => (Outcome::Success, None),
        Some(VerifyResult::ManualNeeded) => (Outcome::ManualNeeded, None),
        Some(VerifyResult::Failed { feedback }) => {
            let copy = feedback.clone();
            (Outcome::Failure { feedback }, Some(copy))
        },
        None => (Outcome::Success, None),
    }
}

// ---------------------------------------------------------------------------
// Recording and routing
// ---------------------------------------------------------------------------

/// What a finished step produced.
pub struct StepRecord {
    pub exit_code: i32,
    /// Bit pattern of the duration in seconds (an `f64`).
    pub duration: Option<u64>,
    pub stdout: Option<String>,
    pub stderr: Option<String>,
}

/// A verdict counts as a successful run when the step advances or waits
/// only for a manual verification.
pub open spec fn verdict_success(v: Verdict) -> bool {
    v is Advance || (v matches Verdict::Yield { reason } && reason@ == "verify_manual"@)
}

/// The `StepFinished` event that records a finished step, whatever its verdict.
pub fn finished_event(
    ts: Timestamp,
    step_idx: usize,
    record: StepRecord,
    verdict: &Verdict,
    verify_output: Option<String>,
) -> (e: Event)
    ensures
        e matches Event::StepFinished {
            ts: t,
            step,
            success,
            exit_code,
            duration,
            stdout,
            stderr,
            verify_output: vo,
        } && t == ts && step == step_idx && success == verdict_success(*verdict) && exit_code
            == record.exit_code && duration == record.duration && stdout == record.stdout
            && stderr == record.stderr && vo == verify_output,
{
    let success = match verdict {
        Verdict::Advance => true,
        Verdict::Yield { reason } => str_eq(reason, "verify_manual"),
        _ => false,
    };
    Event::StepFinished {
        ts,
        step: step_idx,
        success,
        exit_code: record.exit_code,
        duration: record.duration,
        stdout: record.stdout,
        stderr: record.stderr,
        verify_output,
    }
}

/// The event that routes the task after a finished step: a yield for a
/// verdict that waits, an automatic reset for a retry, nothing otherwise.
pub fn follow_up_event(ts: Timestamp, step_idx: usize, verdict: &Verdict) -> (e: Option<Event>)
    ensures
        verdict matches Verdict::Yield { reason } ==> (e matches Some(
            Event::StepYielded { ts: t, step, reason: r },
        ) && t == ts && step == step_idx && r@ == reason@),
        verdict is Retry ==> e == Some(Event::StepReset { ts, step: step_idx, auto: true }),
        (verdict is Advance || verdict is Fail) ==> e is None,
{
    match verdict {
        Verdict::Yield { reason } => Some(
            Event::StepYielded { ts, step: step_idx, reason: owned(reason) },
        ),
        Verdict::Retry => Some(Event::StepReset { ts, step: step_idx, auto: true }),
        _ => None,
    }
}

// ---------------------------------------------------------------------------
// The step loop
// ---------------------------------------------------------------------------

/// What the runner does with the task's current step.
#[derive(Debug, PartialEq, Eq)]
pub enum StepAction {
    /// Every step is done.
    Complete,
    /// The task skips this step.
    Skip(usize),
    /// A gate: wait for approval.
    Gate(usize),
    /// Run the step in a viewport.
    Viewport(usize),
    /// Run the step here.
    Run(usize),
}

pub open spec fn skip_listed(skip_list: Seq<String>, name: Seq<char>) -> bool {
    exists|k: int| 0 <= k < skip_list.len() && skip_list[k]@ == name
}

pub open spec fn next_action_of(current: nat, workflow: Seq<Step>, skip_list: Seq<String>) -> StepAction {
    if current >= workflow.len() {
        StepAction::Complete
    } else {
        let step = workflow[current as int];
        let i = current as usize;
        if skip_listed(skip_list, step.name@) {
            StepAction::Skip(i)
        } else if step.run is None {
            StepAction::Gate(i)
        } else if step.in_viewport {
            StepAction::Viewport(i)
        } else {
            StepAction::Run(i)
        }
    }
}

/// Whether `name` is one of `names`.
pub fn contains_name(names: &Vec<String>, name: &str) -> (b: bool)
    ensures
        b == skip_listed(names@, name@),
{
    let mut k: usize = 0;
    while k < names.len()
        invariant
            k <= names.len(),
            forall|j: int| 0 <= j < k ==> names@[j]@ != name@,
        decreases names.len() - k,
    {
        if str_eq(names[k].as_str(), name) {
            return true;
        }
        k = k + 1;
    }
    false
}

/// The runner's next move for a task in state `state`.
pub fn next_step_action(state: &TaskState, workflow: &Vec<Step>, skip_list: &Vec<String>) -> (a:
    StepAction)
    ensures
        a == next_action_of(state.current_step as nat, workflow@, skip_list@),
{
    let i = state.current_step;
    if i >= workflow.len() {
        return StepAction::Complete;
    }
    let step = &workflow[i];
    if contains_name(skip_list, step.name.as_str()) {
        StepAction::Skip(i)
    } else if step.is_gate() {
        StepAction::Gate(i)
    } else if step.in_viewport {
        StepAction::Viewport(i)
    } else {
        StepAction::Run(i)
    }
}

/// The event the runner logs before acting on a step: a skip, a gate's
/// yield, or a viewport launch.
pub fn action_event(ts: Timestamp, action: &StepAction) -> (e: Option<Event>)
    ensures
        *action matches StepAction::Skip(i) ==> e == Some(Event::StepSkipped { ts, step: i }),
        *action matches StepAction::Gate(i) ==> (e matches Some(
            Event::StepYielded { ts: t, step, reason },
        ) && t == ts && step == i && reason@ == "gate"@),
        *action matches StepAction::Viewport(i) ==> e == Some(
            Event::ViewportLaunched { ts, step: i },
        ),
        (*action is Complete || *action is Run) ==> e is None,
{
    match action {
        StepAction::Skip(i) => Some(Event::StepSkipped { ts, step: *i }),
        StepAction::Gate(i) => Some(Event::StepYielded { ts, step: *i, reason: owned("gate") }),
        StepAction::Viewport(i) => Some(Event::ViewportLaunched { ts, step: *i }),
        _ => None,
    }
}


// ---------------------------------------------------------------------------
// Starting a task
// ---------------------------------------------------------------------------

/// How `start` proceeds once its preconditions hold.
#[derive(Debug, PartialEq, Eq)]
pub enum StartPlan {
    /// Start a run.
    Fresh,
    /// Log a task reset, then start a run.
    ResetFirst,
}

pub open spec fn waiting_reason(message: Option<String>) -> Seq<char> {
    match message {
        Some(m) => m@,
        None => "approval"@,
    }
}

pub open spec fn start_conflict(task: Seq<char>, state: TaskState, step_name: Seq<char>) -> Option<
    (Seq<char>, Seq<char>),
> {
    match state.status {
        TaskStatus::Running => Some(
            ("running"@, "already running at step "@ + decimal(state.current_step as int)),
        ),
        TaskStatus::Completed => Some(
            (
                "completed"@,
                "use 'pawl reset "@ + task + "' to restart or 'pawl start --reset "@ + task + "'"@,
            ),
        ),
        TaskStatus::Waiting => Some(
            (
                "waiting"@,
                "waiting at step "@ + decimal(state.current_step as int) + " ("@ + step_name
                    + ") for "@ + waiting_reason(state.message) + ". Use 'pawl done "@ + task
                    + "' to continue"@,
            ),
        ),
        _ => None,
    }
}

/// Whether `e` is the conflict `(status, message)` about `task`.
pub open spec fn is_conflict(e: PawlError, task: Seq<char>, c: (Seq<char>, Seq<char>)) -> bool {
    e matches PawlError::StateConflict { task: t, status, message } && t@ == task && status@ == c.0
        && message@ == c.1
}

/// Checks whether a task may start. With `reset`, an existing run is reset
/// first; without it, a running, completed or waiting task is a conflict.
/// `step_name` names the current step, for the message about a waiting task.
pub fn check_start(task: &str, state: &Option<TaskState>, reset: bool, step_name: &str) -> (r:
    Result<StartPlan, PawlError>)
    ensures
        *state is None ==> r == Ok::<StartPlan, PawlError>(StartPlan::Fresh),
        *state matches Some(s) ==> if reset {
            r == Ok::<StartPlan, PawlError>(StartPlan::ResetFirst)
        } else {
            match start_conflict(task@, s, step_name@) {
                Some(c) => r matches Err(e) && is_conflict(e, task@, c),
                None => r == Ok::<StartPlan, PawlError>(StartPlan::Fresh),
            }
        },
{
    let s = match state {
        None => return Ok(StartPlan::Fresh),
        Some(s) => s,
    };
    if reset {
        return Ok(StartPlan::ResetFirst);
    }
    match s.status {
        TaskStatus::Running => {
            let mut m = owned("already running at step ");
            let n = usize_to_decimal(s.current_step);
            m.append(n.as_str());
            Err(PawlError::StateConflict { task: owned(task), status: owned("running"), message: m })
        },
        TaskStatus::Completed => {
            let mut m = owned("use 'pawl reset ");
            m.append(task);
            m.append("' to restart or 'pawl start --reset ");
            m.append(task);
            m.append("'");
            Err(
                PawlError::StateConflict { task: owned(task), status: owned("completed"), message: m },
            )
        },
        TaskStatus::Waiting => {
            let mut m = owned("waiting at step ");
            let n = usize_to_decimal(s.current_step);
            m.append(n.as_str());
            m.append(" (");
            m.append(step_name);
            m.append(") for ");
            match &s.message {
                Some(reason) => m.append(reason.as_str()),
                None => m.append("approval"),
            }
            m.append(". Use 'pawl done ");
            m.append(task);
            m.append("' to continue");
            Err(PawlError::StateConflict { task: owned(task), status: owned("waiting"), message: m })
        },
        _ => Ok(StartPlan::Fresh),
    }
}

pub open spec fn blocked_message(task: Seq<char>, blocking: Seq<String>) -> Seq<char> {
    "Task '"@ + task + "' is blocked by incomplete dependencies: "@ + join(
        blocking.map_values(|b: String| b@),
        ", "@,
    )
}

/// The error for a task whose dependencies are not all completed, if any.
pub fn check_dependencies_done(task: &str, blocking: &Vec<String>) -> (r: Result<(), PawlError>)
    ensures
        blocking.len() == 0 ==> r is Ok,
        blocking.len() > 0 ==> (r matches Err(PawlError::Precondition { message }) && message@
            == blocked_message(task@, blocking@)),
{
    if blocking.len() == 0 {
        return Ok(());
    }
    let mut m = owned("Task '");
    m.append(task);
    m.append("' is blocked by incomplete dependencies: ");
    let list = join_strings(blocking, ", ");
    m.append(list.as_str());
    Err(PawlError::Precondition { message: m })
}

/// Automatic retries are bounded: a failure is retried only while the
/// step's automatic retries in this run are fewer than its maximum, so the
/// reset that records the retry leaves the count at most that maximum;
/// once the maximum is reached, a failure fails the task.
pub proof fn law_retries_bounded(
    step: Step,
    log: Seq<Event>,
    step_idx: usize,
    feedback: String,
    ts: Timestamp,
)
    requires
        step.on_fail matches Some(f) && f@ == "retry"@,
    ensures
        decides(
            Outcome::Failure { feedback },
            fail_policy_of(step, log, step_idx),
            Verdict::Retry,
        ) ==> auto_retries(log.push(Event::StepReset { ts, step: step_idx, auto: true }), step_idx)
            <= max_retries_of(step),
        auto_retries(log, step_idx) >= max_retries_of(step) ==> decides(
            Outcome::Failure { feedback },
            fail_policy_of(step, log, step_idx),
            Verdict::Fail,
        ),
{
    crate::model::event::law_auto_reset_counts_one_more(log, ts, step_idx);
}

/// Only a task that is running, waiting or completed is refused a start;
/// a pending, failed or stopped task starts a new run.
pub proof fn law_start_refused_only_when_busy_or_done(task: Seq<char>, s: TaskState, step_name: Seq<char>)
    ensures
        start_conflict(task, s, step_name) is None <==> (s.status == TaskStatus::Pending || s.status
            == TaskStatus::Failed || s.status == TaskStatus::Stopped),
{
}

} // verus!
