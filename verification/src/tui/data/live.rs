//! The dashboard's data, taken from the project: tasks as the list shows
//! them and the detail of one task.
use vstd::prelude::*;

use crate::cmd::common::{first_declaring, Project};
use crate::cmd::status::{workflow_len_of, workflow_of};
use crate::model::config::{Step, TaskConfigView};
use crate::model::state::{opt_state_view, TaskState, TaskStateView, TaskStatus};
use crate::model::task::string_views;
use crate::text::owned;
use crate::tui::data::provider::TmuxCaptureResult;
use crate::tui::state::task_detail::{item_status_of, StepItem, StepItemStatus, StepType, TaskDetailState};
use crate::tui::state::task_list::{clone_opt_string, clone_strings, TaskItem};
use crate::util::tmux::CaptureResult;

verus! {

broadcast use vstd::std_specs::hash::group_hash_axioms;

/// The dashboard's view of a project.
#[derive(Debug)]
pub struct LiveDataProvider {
    pub project: Project,
}

/// The name the list shows for step `idx` of a task: "Done" past the last.
pub open spec fn list_step_name(steps: Seq<Step>, idx: usize) -> Seq<char> {
    if idx < steps.len() {
        steps[idx as int].name@
    } else {
        "Done"@
    }
}

/// How the detail view types a step.
pub open spec fn step_type_of(s: Step) -> StepType {
    if s.run is None {
        StepType::Checkpoint
    } else if s.in_viewport {
        StepType::InWindow
    } else {
        StepType::Normal
    }
}

/// How the detail view shows the status of step `i`.
pub open spec fn step_item_status(state: Option<TaskStateView>, i: usize) -> StepItemStatus {
    match state {
        Some(s) => if i < s.current_step {
            if s.step_status.contains_key(i) {
                item_status_of(s.step_status[i])
            } else {
                StepItemStatus::Success
            }
        } else if i == s.current_step {
            StepItemStatus::Current
        } else {
            StepItemStatus::Pending
        },
        None => StepItemStatus::Pending,
    }
}

/// The pane content a capture gives the viewport view.
pub fn capture_to_result(c: CaptureResult) -> (r: TmuxCaptureResult)
    ensures
        match c {
            CaptureResult::Content(s) => r.content == s && r.window_exists,
            CaptureResult::WindowGone => r.content@ == Seq::<char>::empty() && !r.window_exists,
        },
{
    match c {
        CaptureResult::Content(content) => TmuxCaptureResult { content, window_exists: true },
        CaptureResult::WindowGone => TmuxCaptureResult { content: String::new(), window_exists: false },
    }
}

impl LiveDataProvider {
    pub fn new(project: Project) -> (p: Self)
        ensures
            p.project == project,
    {
        LiveDataProvider { project }
    }

    /// A task as the list shows it: its status and step (or "--" before it
    /// starts), and the dependencies that block it.
    pub fn task_item(&self, name: &str, state: &Option<TaskState>, blocked_by: Vec<String>) -> (r: TaskItem)
        ensures
            r.name@ == name@,
            r.total_steps == workflow_of(self.project.entries(), name@).len(),
            r.blocked_by@ == blocked_by@,
            match *state {
                Some(s) => {
                    &&& r.status == s.status
                    &&& r.current_step == s.current_step
                    &&& r.step_name@ == list_step_name(workflow_of(self.project.entries(), name@), s.current_step)
                    &&& r.message == s.message
                },
                None => {
                    &&& r.status == TaskStatus::Pending
                    &&& r.current_step == 0
                    &&& r.step_name@ == "--"@
                    &&& r.message is None
                },
            },
    {
        let empty: Vec<Step> = Vec::new();
        let steps: &Vec<Step> = match self.project.workflow_for(name) {
            Ok((_, c)) => &c.workflow,
            Err(_) => &empty,
        };
        match state {
            Some(s) => {
                let step_name = if s.current_step < steps.len() {
                    steps[s.current_step].name.clone()
                } else {
                    owned("Done")
                };
                TaskItem {
                    name: owned(name),
                    status: s.status,
                    current_step: s.current_step,
                    total_steps: steps.len(),
                    step_name,
                    blocked_by,
                    message: clone_opt_string(&s.message),
                }
            },
            None => TaskItem {
                name: owned(name),
                status: TaskStatus::Pending,
                current_step: 0,
                total_steps: steps.len(),
                step_name: owned("--"),
                blocked_by,
                message: None,
            },
        }
    }

    /// The detail of a task: its declaration, status, and each step of its
    /// workflow with its kind and status.
    pub fn task_detail(&self, name: &str, state: &Option<TaskState>) -> (r: TaskDetailState)
        ensures
            r.name@ == name@,
            r.scroll_offset == 0,
            r.status == match *state {
                Some(s) => s.status,
                None => TaskStatus::Pending,
            },
            r.current_step == match *state {
                Some(s) => s.current_step,
                None => 0,
            },
            r.message == match *state {
                Some(s) => s.message,
                None => None,
            },
            match first_declaring(self.project.entries(), name@) {
                Some(i) => exists|t: TaskConfigView|
                    self.project.entries()[i].1.tasks.contains((name@, t)) && r.description@ == match t.description {
                        Some(d) => d,
                        None => Seq::<char>::empty(),
                    } && string_views(r.depends@) == t.depends,
                None => r.description@ == Seq::<char>::empty() && string_views(r.depends@)
                    == Seq::<Seq<char>>::empty(),
            },
            r.steps.len() == workflow_of(self.project.entries(), name@).len(),
            forall|i: int|
                0 <= i < r.steps.len() ==> {
                    &&& (#[trigger] r.steps@[i]).index == i
                    &&& r.steps@[i].name@ == workflow_of(self.project.entries(), name@)[i].name@
                    &&& r.steps@[i].step_type == step_type_of(workflow_of(self.project.entries(), name@)[i])
                    &&& r.steps@[i].status == step_item_status(opt_state_view(*state), i as usize)
                },
    {
        let empty: Vec<Step> = Vec::new();
        let workflow: &Vec<Step> = match self.project.workflow_for(name) {
            Ok((_, c)) => &c.workflow,
            Err(_) => &empty,
        };
        let ghost sv = opt_state_view(*state);
        let mut steps: Vec<StepItem> = Vec::new();
        let mut i: usize = 0;
        while i < workflow.len()
            invariant
                i <= workflow.len(),
                steps.len() == i,
                sv == opt_state_view(*state),
                forall|k: int|
                    0 <= k < i ==> {
                        &&& (#[trigger] steps@[k]).index == k
                        &&& steps@[k].name@ == workflow@[k].name@
                        &&& steps@[k].step_type == step_type_of(workflow@[k])
                        &&& steps@[k].status == step_item_status(sv, k as usize)
                    },
            decreases workflow.len() - i,
        {
            let step = &workflow[i];
            let step_type = if step.is_gate() {
                StepType::Checkpoint
            } else if step.in_viewport {
                StepType::InWindow
            } else {
                StepType::Normal
            };
            let status = match state {
                Some(s) => if i < s.current_step {
                    match s.step_status.get(&i) {
                        Some(st) => StepItemStatus::from(*st),
                        None => StepItemStatus::Success,
                    }
                } else if i == s.current_step {
                    StepItemStatus::Current
                } else {
                    StepItemStatus::Pending
                },
                None => StepItemStatus::Pending,
            };
            steps.push(StepItem { index: i, name: step.name.clone(), step_type, status });
            i = i + 1;
        }
        let (status, current_step, message) = match state {
            Some(s) => (s.status, s.current_step, clone_opt_string(&s.message)),
            None => (TaskStatus::Pending, 0, None),
        };
        let found = self.project.task_config(name);
        let (description, depends) = match found {
            Some(tc) => (
                match &tc.description {
                    Some(d) => d.clone(),
                    None => String::new(),
                },
                clone_strings(&tc.depends),
            ),
            None => (String::new(), Vec::new()),
        };
        let r = TaskDetailState::new(owned(name), description, depends, status, current_step, steps, message);
        proof {
            if let Some(tc) = found {
                let t = tc@;
                assert(r.description@ == match t.description {
                    Some(d) => d,
                    None => Seq::<char>::empty(),
                });
                assert(string_views(r.depends@) == t.depends);
                let i = first_declaring(self.project.entries(), name@)->0;
                assert(self.project.entries()[i].1.tasks.contains((name@, t)));
            } else {
                assert(string_views(r.depends@) =~= Seq::<Seq<char>>::empty());
            }
        }
        r
    }
}

} // verus!
