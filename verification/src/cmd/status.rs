//! What `status` reports: a summary of every task, or the detail of one.
use vstd::prelude::*;

use crate::cmd::common::{
    extract_step_context, first_declaring, last_feedback, workflow_index, Project,
};
use crate::model::config::{ConfigView, Step, TaskConfigView};
use crate::model::event::{auto_retries, rfc3339, rfc3339_text, Event, Timestamp};
use crate::model::state::{opt_state_view, opt_view, status_name, step_status_name, TaskState, TaskStateView};
use crate::model::task::string_views;
use crate::tui::state::task_list::{clone_opt_string, clone_strings};
use crate::text::{owned, str_eq};

verus! {

broadcast use vstd::std_specs::hash::group_hash_axioms;

/// Routing hints: commands to run next (`suggest`) and, where a judgment is
/// needed, what to check first (`prompt`).
pub open spec fn routing(status: Seq<char>, message: Option<Seq<char>>, task: Seq<char>) -> (
    Seq<Seq<char>>,
    Option<Seq<char>>,
) {
    if status == "pending"@ {
        (seq!["pawl start "@ + task], None)
    } else if status == "waiting"@ {
        if message == Some("gate"@) {
            (seq![], Some("confirm preconditions, then: pawl done "@ + task))
        } else if message == Some("verify_manual"@) {
            (seq![], Some("verify work quality, then: pawl done "@ + task))
        } else if message == Some("on_fail_manual"@) {
            (
                seq!["pawl reset --step "@ + task],
                Some("review failure, then: pawl done "@ + task + " to accept"@),
            )
        } else {
            (seq![], None)
        }
    } else if status == "failed"@ {
        (seq!["pawl reset --step "@ + task], None)
    } else if status == "stopped"@ {
        (seq!["pawl start "@ + task, "pawl reset "@ + task], None)
    } else {
        (seq![], None)
    }
}

fn cat(a: &str, b: &str) -> (r: String)
    ensures
        r@ == a@ + b@,
{
    let mut r = owned(a);
    r.append(b);
    r
}

fn opt_is(o: Option<&str>, lit: &str) -> (b: bool)
    ensures
        b == (match o {
            Some(s) => s@ == lit@,
            None => false,
        }),
{
    match o {
        Some(s) => str_eq(s, lit),
        None => false,
    }
}

/// The routing hints for a task in a given status.
pub fn derive_routing(status: &str, message: Option<&str>, task: &str) -> (r: (
    Vec<String>,
    Option<String>,
))
    ensures
        string_views(r.0@) == routing(
            status@,
            match message {
                Some(m) => Some(m@),
                None => None,
            },
            task@,
        ).0,
        opt_view(r.1) == routing(
            status@,
            match message {
                Some(m) => Some(m@),
                None => None,
            },
            task@,
        ).1,
{
    let ghost mv = match message {
        Some(m) => Some(m@),
        None => None,
    };
    let mut suggest: Vec<String> = Vec::new();
    let mut prompt: Option<String> = None;
    if str_eq(status, "pending") {
        suggest.push(cat("pawl start ", task));
    } else if str_eq(status, "waiting") {
        if opt_is(message, "gate") {
            prompt = Some(cat("confirm preconditions, then: pawl done ", task));
        } else if opt_is(message, "verify_manual") {
            prompt = Some(cat("verify work quality, then: pawl done ", task));
        } else if opt_is(message, "on_fail_manual") {
            suggest.push(cat("pawl reset --step ", task));
            let mut p = cat("review failure, then: pawl done ", task);
            p.append(" to accept");
            prompt = Some(p);
        }
    } else if str_eq(status, "failed") {
        suggest.push(cat("pawl reset --step ", task));
    } else if str_eq(status, "stopped") {
        suggest.push(cat("pawl start ", task));
        suggest.push(cat("pawl reset ", task));
    }
    proof {
        if message is Some {
            let m = message->0;
            assert((mv == Some("gate"@)) == (m@ == "gate"@));
            assert((mv == Some("verify_manual"@)) == (m@ == "verify_manual"@));
            assert((mv == Some("on_fail_manual"@)) == (m@ == "on_fail_manual"@));
        }
        assert(string_views(suggest@) =~= routing(status@, mv, task@).0);
    }
    (suggest, prompt)
}

/// One step of a workflow as `status` shows it.
#[derive(Debug)]
pub struct StepInfo {
    pub index: usize,
    pub name: String,
    /// "gate", "in_viewport", or none for an ordinary step.
    pub step_type: Option<String>,
    pub status: String,
}

/// The kind of a step as `status` names it.
pub open spec fn step_type_of(s: Step) -> Option<Seq<char>> {
    if s.run is None {
        Some("gate"@)
    } else if s.in_viewport {
        Some("in_viewport"@)
    } else {
        None
    }
}

/// The status shown for step `i`: its recorded outcome (success when none
/// was recorded) before the current step, "current" at it, "pending" after
/// it and for a task not started.
pub open spec fn step_info_status(state: Option<TaskStateView>, i: usize) -> Seq<char> {
    match state {
        Some(s) => if i < s.current_step {
            if s.step_status.contains_key(i) {
                step_status_name(s.step_status[i])
            } else {
                "success"@
            }
        } else if i == s.current_step {
            "current"@
        } else {
            "pending"@
        },
        None => "pending"@,
    }
}

/// The rows of the workflow table of `status`.
pub fn step_infos(workflow: &Vec<Step>, state: &Option<TaskState>) -> (r: Vec<StepInfo>)
    ensures
        r.len() == workflow.len(),
        forall|i: int|
            0 <= i < r.len() ==> {
                &&& (#[trigger] r@[i]).index == i
                &&& r@[i].name@ == workflow@[i].name@
                &&& opt_view(r@[i].step_type) == step_type_of(workflow@[i])
                &&& r@[i].status@ == step_info_status(
                    opt_state_view(*state),
                    i as usize,
                )
            },
{
    let ghost sv = opt_state_view(*state);
    let mut r: Vec<StepInfo> = Vec::new();
    let mut i: usize = 0;
    while i < workflow.len()
        invariant
            i <= workflow.len(),
            r.len() == i,
            sv == opt_state_view(*state),
            forall|k: int|
                0 <= k < i ==> {
                    &&& (#[trigger] r@[k]).index == k
                    &&& r@[k].name@ == workflow@[k].name@
                    &&& opt_view(r@[k].step_type) == step_type_of(workflow@[k])
                    &&& r@[k].status@ == step_info_status(sv, k as usize)
                },
        decreases workflow.len() - i,
    {
        let step = &workflow[i];
        let step_type = if step.is_gate() {
            Some(owned("gate"))
        } else if step.in_viewport {
            Some(owned("in_viewport"))
        } else {
            None
        };
        let status = match state {
            Some(s) => if i < s.current_step {
                match s.step_status.get(&i) {
                    Some(st) => owned(st.as_str()),
                    None => owned("success"),
                }
            } else if i == s.current_step {
                owned("current")
            } else {
                owned("pending")
            },
            None => owned("pending"),
        };
        r.push(StepInfo { index: i, name: step.name.clone(), step_type, status });
        i = i + 1;
    }
    r
}

/// A task as the list of `status` shows it.
#[derive(Debug)]
pub struct TaskSummary {
    pub name: String,
    pub description: Option<String>,
    pub status: String,
    pub run_id: String,
    pub current_step: usize,
    pub total_steps: usize,
    pub step_name: String,
    pub message: Option<String>,
    pub started_at: Option<String>,
    pub updated_at: Option<String>,
    pub blocked_by: Vec<String>,
    pub retry_count: usize,
    pub last_feedback: Option<String>,
    pub suggest: Vec<String>,
    pub prompt: Option<String>,
}

/// One task in detail, with its workflow.
#[derive(Debug)]
pub struct TaskDetail {
    pub name: String,
    pub description: Option<String>,
    pub depends: Vec<String>,
    pub status: String,
    pub run_id: String,
    pub current_step: usize,
    pub total_steps: usize,
    pub message: Option<String>,
    pub started_at: Option<String>,
    pub updated_at: Option<String>,
    pub retry_count: usize,
    pub last_feedback: Option<String>,
    pub suggest: Vec<String>,
    pub prompt: Option<String>,
    pub workflow: Vec<StepInfo>,
}

/// The RFC 3339 text of an optional time.
pub open spec fn time_text(t: Option<Timestamp>) -> Option<Seq<char>> {
    match t {
        Some(ts) => rfc3339_text(ts.secs, ts.nanos),
        None => None,
    }
}

fn time_string(t: Option<Timestamp>) -> (r: Option<String>)
    ensures
        opt_view(r) == time_text(t),
{
    match t {
        Some(ts) => rfc3339(ts),
        None => None,
    }
}

/// The number of steps of the workflow a task runs under (none: 0).
pub open spec fn workflow_len_of(ws: Seq<(Seq<char>, ConfigView)>, task: Seq<char>) -> nat {
    match workflow_index(ws, task) {
        Some(i) => ws[i].1.workflow.len(),
        None => 0,
    }
}

impl Project {
    fn workflow_len_for(&self, task: &str) -> (n: usize)
        ensures
            n == workflow_len_of(self.entries(), task@),
    {
        match self.workflow_for(task) {
            Ok((_, c)) => c.workflow.len(),
            Err(_) => 0,
        }
    }

    /// The summary line of a task: its state, where it stands in its
    /// workflow, what blocks it, its retry context and routing hints.
    /// `blocked_by` lists the dependencies not completed; `events` is the
    /// task's log.
    pub fn task_summary(
        &self,
        name: &str,
        state: &Option<TaskState>,
        blocked_by: Vec<String>,
        events: &[Event],
    ) -> (r: TaskSummary)
        ensures
            r.name@ == name@,
            r.blocked_by@ == blocked_by@,
            r.total_steps == workflow_len_of(self.entries(), name@),
            match first_declaring(self.entries(), name@) {
                Some(_) => exists|t: TaskConfigView|
                    self.entries()[first_declaring(self.entries(), name@)->0].1.tasks.contains(
                        (name@, t),
                    ) && opt_view(r.description) == t.description,
                None => r.description is None,
            },
            match *state {
                Some(s) => {
                    &&& r.status@ == status_name(s.status)
                    &&& r.run_id@ == s.run_id@
                    &&& r.current_step == s.current_step
                    &&& r.step_name@ == crate::cmd::common::step_name_of(
                        self.entries(),
                        name@,
                        s.current_step as nat,
                    )
                    &&& opt_view(r.message) == opt_view(s.message)
                    &&& opt_view(r.started_at) == time_text(s.started_at)
                    &&& opt_view(r.updated_at) == time_text(s.updated_at)
                    &&& r.retry_count == auto_retries(events@, s.current_step)
                    &&& opt_view(r.last_feedback) == last_feedback(events@, s.current_step)
                    &&& string_views(r.suggest@) == routing(
                        status_name(s.status),
                        opt_view(s.message),
                        name@,
                    ).0
                    &&& opt_view(r.prompt) == routing(
                        status_name(s.status),
                        opt_view(s.message),
                        name@,
                    ).1
                },
                None => {
                    &&& r.status@ == "pending"@
                    &&& r.run_id@ == Seq::<char>::empty()
                    &&& r.current_step == 0
                    &&& r.step_name@ == "--"@
                    &&& r.message is None
                    &&& r.started_at is None
                    &&& r.updated_at is None
                    &&& r.retry_count == 0
                    &&& r.last_feedback is None
                    &&& string_views(r.suggest@) == routing("pending"@, None, name@).0
                    &&& r.prompt is None
                },
            },
    {
        let description = match self.task_config(name) {
            Some(tc) => clone_opt_string(&tc.description),
            None => None,
        };
        let total_steps = self.workflow_len_for(name);
        match state {
            Some(s) => {
                let step_name = self.step_name(name, s.current_step);
                let (retry_count, last_feedback) = extract_step_context(events, s.current_step);
                let status = s.status.to_string();
                let msg: Option<&str> = match &s.message {
                    Some(m) => Some(m.as_str()),
                    None => None,
                };
                let (suggest, prompt) = derive_routing(status.as_str(), msg, name);
                TaskSummary {
                    name: owned(name),
                    description,
                    status,
                    run_id: s.run_id.clone(),
                    current_step: s.current_step,
                    total_steps,
                    step_name,
                    message: clone_opt_string(&s.message),
                    started_at: time_string(s.started_at),
                    updated_at: time_string(s.updated_at),
                    blocked_by,
                    retry_count,
                    last_feedback,
                    suggest,
                    prompt,
                }
            },
            None => {
                let (suggest, prompt) = derive_routing("pending", None, name);
                TaskSummary {
                    name: owned(name),
                    description,
                    status: owned("pending"),
                    run_id: String::new(),
                    current_step: 0,
                    total_steps,
                    step_name: owned("--"),
                    message: None,
                    started_at: None,
                    updated_at: None,
                    blocked_by,
                    retry_count: 0,
                    last_feedback: None,
                    suggest,
                    prompt,
                }
            },
        }
    }
}

/// The steps of the workflow a task runs under (none: no steps).
pub open spec fn workflow_of(ws: Seq<(Seq<char>, ConfigView)>, task: Seq<char>) -> Seq<Step> {
    match workflow_index(ws, task) {
        Some(i) => ws[i].1.workflow,
        None => seq![],
    }
}

/// The state of a task as the write commands report it.
#[derive(Debug)]
pub struct TaskReport {
    pub name: String,
    pub status: String,
    pub run_id: String,
    pub current_step: usize,
    pub step_name: String,
    pub total_steps: usize,
    pub message: Option<String>,
    pub retry_count: usize,
    pub last_feedback: Option<String>,
}

impl Project {
    /// The report of a task's state: its status ("pending" before it
    /// starts), run, current step (0 before it starts) with its name, the
    /// workflow's length, the message, and the retry context of the current
    /// step.
    pub fn task_report(&self, name: &str, state: &Option<TaskState>, events: &[Event]) -> (r: TaskReport)
        ensures
            r.name@ == name@,
            r.current_step == match *state {
                Some(s) => s.current_step,
                None => 0,
            },
            r.step_name@ == crate::cmd::common::step_name_of(self.entries(), name@, r.current_step as nat),
            r.total_steps == workflow_len_of(self.entries(), name@),
            r.retry_count == auto_retries(events@, r.current_step),
            opt_view(r.last_feedback) == last_feedback(events@, r.current_step),
            match *state {
                Some(s) => {
                    &&& r.status@ == status_name(s.status)
                    &&& r.run_id@ == s.run_id@
                    &&& opt_view(r.message) == opt_view(s.message)
                },
                None => {
                    &&& r.status@ == "pending"@
                    &&& r.run_id@ == Seq::<char>::empty()
                    &&& r.message is None
                },
            },
    {
        let (current_step, status, run_id, message) = match state {
            Some(s) => (s.current_step, s.status.to_string(), s.run_id.clone(), clone_opt_string(&s.message)),
            None => (0, owned("pending"), String::new(), None),
        };
        let (retry_count, last_feedback) = extract_step_context(events, current_step);
        TaskReport {
            name: owned(name),
            status,
            run_id,
            current_step,
            step_name: self.step_name(name, current_step),
            total_steps: self.workflow_len_for(name),
            message,
            retry_count,
            last_feedback,
        }
    }
}

/// What the detail of a task holds: its declaration, state, retry
/// context, routing hints and the status of each step of its workflow.
pub open spec fn detail_fits(
    r: TaskDetail,
    entries: Seq<(Seq<char>, ConfigView)>,
    name: Seq<char>,
    state: Option<TaskState>,
    events: Seq<Event>,
) -> bool {
    &&& r.name@ == name
    &&& r.total_steps == workflow_len_of(entries, name)
    &&& r.workflow.len() == workflow_of(entries, name).len()
    &&& forall|i: int|
        0 <= i < r.workflow.len() ==> {
            &&& (#[trigger] r.workflow@[i]).index == i
            &&& r.workflow@[i].name@ == workflow_of(entries, name)[i].name@
            &&& opt_view(r.workflow@[i].step_type) == step_type_of(workflow_of(entries, name)[i])
            &&& r.workflow@[i].status@ == step_info_status(opt_state_view(state), i as usize)
        }
    &&& match first_declaring(entries, name) {
        Some(j) => exists|t: TaskConfigView|
            entries[j].1.tasks.contains((name, t)) && opt_view(r.description) == t.description
                && string_views(r.depends@) == t.depends,
        None => r.description is None && r.depends.len() == 0,
    }
    &&& r.current_step == match state {
        Some(s) => s.current_step,
        None => 0,
    }
    &&& r.retry_count == auto_retries(events, r.current_step)
    &&& opt_view(r.last_feedback) == last_feedback(events, r.current_step)
    &&& string_views(r.suggest@) == routing(r.status@, opt_view(r.message), name).0
    &&& opt_view(r.prompt) == routing(r.status@, opt_view(r.message), name).1
    &&& match state {
        Some(s) => {
            &&& r.status@ == status_name(s.status)
            &&& r.run_id@ == s.run_id@
            &&& opt_view(r.message) == opt_view(s.message)
            &&& opt_view(r.started_at) == time_text(s.started_at)
            &&& opt_view(r.updated_at) == time_text(s.updated_at)
        },
        None => {
            &&& r.status@ == "pending"@
            &&& r.run_id@ == Seq::<char>::empty()
            &&& r.message is None
            &&& r.started_at is None
            &&& r.updated_at is None
        },
    }
}

impl Project {
    /// The detail of a task: its declaration, state, retry context, routing
    /// hints and the status of each step of its workflow.
    pub fn task_detail(&self, name: &str, state: &Option<TaskState>, events: &[Event]) -> (r:
        TaskDetail)
        ensures
            detail_fits(r, self.entries(), name@, *state, events@),
    {
        let (description, depends) = match self.task_config(name) {
            Some(tc) => (clone_opt_string(&tc.description), clone_strings(&tc.depends)),
            None => (None, Vec::new()),
        };
        let empty: Vec<Step> = Vec::new();
        let workflow: &Vec<Step> = match self.workflow_for(name) {
            Ok((_, c)) => &c.workflow,
            Err(_) => &empty,
        };
        let steps = step_infos(workflow, state);
        let current_step = match state {
            Some(s) => s.current_step,
            None => 0,
        };
        let (retry_count, last_feedback) = extract_step_context(events, current_step);
        let status = match state {
            Some(s) => s.status.to_string(),
            None => owned("pending"),
        };
        let message = match state {
            Some(s) => clone_opt_string(&s.message),
            None => None,
        };
        let msg: Option<&str> = match &message {
            Some(m) => Some(m.as_str()),
            None => None,
        };
        let (suggest, prompt) = derive_routing(status.as_str(), msg, name);
        let (run_id, started_at, updated_at) = match state {
            Some(s) => (s.run_id.clone(), time_string(s.started_at), time_string(s.updated_at)),
            None => (String::new(), None, None),
        };
        TaskDetail {
            name: owned(name),
            description,
            depends,
            status,
            run_id,
            current_step,
            total_steps: workflow.len(),
            message,
            started_at,
            updated_at,
            retry_count,
            last_feedback,
            suggest,
            prompt,
            workflow: steps,
        }
    }
}

} // verus!
