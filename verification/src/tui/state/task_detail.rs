//! The task detail view: a task's steps and where it stands.
use vstd::prelude::*;

use crate::model::state::{StepStatus, TaskStatus};
use crate::model::task::string_views;
use crate::tui::state::task_list::{clone_opt_string, clone_strings};

verus! {

/// One step as the detail view shows it.
#[derive(Debug)]
pub struct StepItem {
    pub index: usize,
    pub name: String,
    pub step_type: StepType,
    pub status: StepItemStatus,
}

#[derive(Debug, Clone, Copy, PartialEq, Eq, Structural)]
pub enum StepType {
    Normal,
    Checkpoint,
    InWindow,
}

#[derive(Debug, Clone, Copy, PartialEq, Eq, Structural)]
pub enum StepItemStatus {
    Pending,
    Current,
    Success,
    Failed,
    Skipped,
}

impl Clone for StepItem {
    fn clone(&self) -> (r: Self)
        ensures
            r == *self,
    {
        StepItem {
            index: self.index,
            name: self.name.clone(),
            step_type: self.step_type,
            status: self.status,
        }
    }
}

/// How a recorded step status is shown.
pub open spec fn item_status_of(s: StepStatus) -> StepItemStatus {
    match s {
        StepStatus::Success => StepItemStatus::Success,
        StepStatus::Failed => StepItemStatus::Failed,
        StepStatus::Skipped => StepItemStatus::Skipped,
    }
}

impl From<StepStatus> for StepItemStatus {
    fn from(status: StepStatus) -> (r: StepItemStatus) {
        match status {
            StepStatus::Success => StepItemStatus::Success,
            StepStatus::Failed => StepItemStatus::Failed,
            StepStatus::Skipped => StepItemStatus::Skipped,
        }
    }
}

impl vstd::std_specs::convert::FromSpecImpl<StepStatus> for StepItemStatus {
    open spec fn obeys_from_spec() -> bool {
        true
    }

    open spec fn from_spec(v: StepStatus) -> StepItemStatus {
        item_status_of(v)
    }
}

/// State of the task detail view.
#[derive(Debug)]
pub struct TaskDetailState {
    pub name: String,
    pub description: String,
    pub depends: Vec<String>,
    pub status: TaskStatus,
    pub current_step: usize,
    pub steps: Vec<StepItem>,
    pub message: Option<String>,
    pub scroll_offset: usize,
}

pub struct TaskDetailStateView {
    pub name: Seq<char>,
    pub description: Seq<char>,
    pub depends: Seq<Seq<char>>,
    pub status: TaskStatus,
    pub current_step: usize,
    pub steps: Seq<StepItem>,
    pub message: Option<String>,
    pub scroll_offset: usize,
}

impl View for TaskDetailState {
    type V = TaskDetailStateView;

    open spec fn view(&self) -> TaskDetailStateView {
        TaskDetailStateView {
            name: self.name@,
            description: self.description@,
            depends: string_views(self.depends@),
            status: self.status,
            current_step: self.current_step,
            steps: self.steps@,
            message: self.message,
            scroll_offset: self.scroll_offset,
        }
    }
}

pub fn clone_steps(v: &Vec<StepItem>) -> (r: Vec<StepItem>)
    ensures
        r@ == v@,
{
    let mut r: Vec<StepItem> = Vec::new();
    let mut i: usize = 0;
    while i < v.len()
        invariant
            i <= v.len(),
            r@ == v@.take(i as int),
        decreases v.len() - i,
    {
        r.push(v[i].clone());
        i = i + 1;
        assert(r@ =~= v@.take(i as int));
    }
    assert(v@.take(i as int) =~= v@);
    r
}

impl Clone for TaskDetailState {
    fn clone(&self) -> (r: Self)
        ensures
            r@ == self@,
    {
        TaskDetailState {
            name: self.name.clone(),
            description: self.description.clone(),
            depends: clone_strings(&self.depends),
            status: self.status,
            current_step: self.current_step,
            steps: clone_steps(&self.steps),
            message: clone_opt_string(&self.message),
            scroll_offset: self.scroll_offset,
        }
    }
}

/// The view scrolled up by `n` lines (not past the top).
pub open spec fn detail_scrolled_up(v: TaskDetailStateView, n: usize) -> TaskDetailStateView {
    TaskDetailStateView {
        scroll_offset: if v.scroll_offset >= n {
            (v.scroll_offset - n) as usize
        } else {
            0
        },
        ..v
    }
}

/// The view scrolled down by `n` lines, to at most `max_lines - 1`.
pub open spec fn detail_scrolled_down(v: TaskDetailStateView, n: usize, max_lines: usize) -> TaskDetailStateView {
    let max_offset: int = if max_lines > 0 {
        max_lines - 1
    } else {
        0
    };
    let target = v.scroll_offset + n;
    TaskDetailStateView {
        scroll_offset: if target <= max_offset {
            target as usize
        } else {
            max_offset as usize
        },
        ..v
    }
}

impl TaskDetailState {
    pub fn new(
        name: String,
        description: String,
        depends: Vec<String>,
        status: TaskStatus,
        current_step: usize,
        steps: Vec<StepItem>,
        message: Option<String>,
    ) -> (s: Self)
        ensures
            s@ == (TaskDetailStateView {
                name: name@,
                description: description@,
                depends: string_views(depends@),
                status,
                current_step,
                steps: steps@,
                message,
                scroll_offset: 0,
            }),
    {
        TaskDetailState {
            name,
            description,
            depends,
            status,
            current_step,
            steps,
            message,
            scroll_offset: 0,
        }
    }

    pub fn scroll_up(&self, lines: usize) -> (s: Self)
        ensures
            s@ == detail_scrolled_up(self@, lines),
    {
        let mut s = self.clone();
        s.scroll_offset = if self.scroll_offset >= lines {
            self.scroll_offset - lines
        } else {
            0
        };
        s
    }

    pub fn scroll_down(&self, lines: usize, max_lines: usize) -> (s: Self)
        requires
            self.scroll_offset + lines <= usize::MAX,
        ensures
            s@ == detail_scrolled_down(self@, lines, max_lines),
    {
        let max_offset = if max_lines > 0 {
            max_lines - 1
        } else {
            0
        };
        let target = self.scroll_offset + lines;
        let mut s = self.clone();
        s.scroll_offset = if target <= max_offset {
            target
        } else {
            max_offset
        };
        s
    }
}

} // verus!
