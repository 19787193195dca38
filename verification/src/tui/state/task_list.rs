//! The task list view: the tasks shown and which one is selected.
use vstd::prelude::*;

use crate::model::state::TaskStatus;
use crate::model::task::string_views;

verus! {

/// A task as the list shows it.
#[derive(Debug)]
pub struct TaskItem {
    pub name: String,
    pub status: TaskStatus,
    pub current_step: usize,
    pub total_steps: usize,
    pub step_name: String,
    pub blocked_by: Vec<String>,
    pub message: Option<String>,
}

pub struct TaskItemView {
    pub name: Seq<char>,
    pub status: TaskStatus,
    pub current_step: usize,
    pub total_steps: usize,
    pub step_name: Seq<char>,
    pub blocked_by: Seq<Seq<char>>,
    pub message: Option<String>,
}

impl View for TaskItem {
    type V = TaskItemView;

    open spec fn view(&self) -> TaskItemView {
        TaskItemView {
            name: self.name@,
            status: self.status,
            current_step: self.current_step,
            total_steps: self.total_steps,
            step_name: self.step_name@,
            blocked_by: string_views(self.blocked_by@),
            message: self.message,
        }
    }
}

pub fn clone_strings(v: &Vec<String>) -> (r: Vec<String>)
    ensures
        r@ == v@,
{
    let mut r: Vec<String> = Vec::new();
    let mut i: usize = 0;
    while i < v.len()
        invariant
            i <= v.len(),
            r@ == v@.take(i as int),
        decreases v.len() - i,
    {
        r.push(v[i].clone());
        i = i + 1;
        assert(r@ =~= v@.take(i as int));
    }
    assert(v@.take(i as int) =~= v@);
    r
}

pub fn clone_opt_string(o: &Option<String>) -> (r: Option<String>)
    ensures
        r == *o,
{
    match o {
        Some(s) => Some(s.clone()),
        None => None,
    }
}

impl Clone for TaskItem {
    fn clone(&self) -> (r: Self)
        ensures
            r@ == self@,
    {
        TaskItem {
            name: self.name.clone(),
            status: self.status,
            current_step: self.current_step,
            total_steps: self.total_steps,
            step_name: self.step_name.clone(),
            blocked_by: clone_strings(&self.blocked_by),
            message: clone_opt_string(&self.message),
        }
    }
}

pub open spec fn item_views(v: Seq<TaskItem>) -> Seq<TaskItemView> {
    v.map_values(|t: TaskItem| t@)
}

/// State of the task list view.
#[derive(Debug)]
pub struct TaskListState {
    pub tasks: Vec<TaskItem>,
    pub selected: usize,
}

pub struct TaskListStateView {
    pub tasks: Seq<TaskItemView>,
    pub selected: usize,
}

impl View for TaskListState {
    type V = TaskListStateView;

    open spec fn view(&self) -> TaskListStateView {
        TaskListStateView { tasks: item_views(self.tasks@), selected: self.selected }
    }
}

/// Moving down stops at the last task.
pub open spec fn next_selected(selected: usize, len: nat) -> usize {
    if len == 0 {
        0
    } else if selected >= len - 1 {
        selected
    } else {
        (selected + 1) as usize
    }
}

/// Moving up stops at the first task.
pub open spec fn prev_selected(selected: usize) -> usize {
    if selected > 0 {
        (selected - 1) as usize
    } else {
        0
    }
}

/// After the list changes, the selection stays where it was if it still
/// points at a task, else it moves to the last task (or 0 for no tasks).
pub open spec fn kept_selected(selected: usize, len: nat) -> usize {
    let last: int = if len == 0 {
        0
    } else {
        len - 1
    };
    if selected <= last {
        selected
    } else {
        last as usize
    }
}

pub fn clone_items(v: &Vec<TaskItem>) -> (r: Vec<TaskItem>)
    ensures
        item_views(r@) == item_views(v@),
{
    let mut r: Vec<TaskItem> = Vec::new();
    let mut i: usize = 0;
    while i < v.len()
        invariant
            i <= v.len(),
            item_views(r@) == item_views(v@).take(i as int),
        decreases v.len() - i,
    {
        let ghost before = r@;
        let t = v[i].clone();
        r.push(t);
        assert(item_views(r@) =~= item_views(before).push(v@[i as int]@));
        assert(item_views(v@).take(i + 1) =~= item_views(v@).take(i as int).push(v@[i as int]@));
        i = i + 1;
    }
    assert(item_views(v@).take(i as int) =~= item_views(v@));
    r
}

impl Clone for TaskListState {
    fn clone(&self) -> (r: Self)
        ensures
            r@ == self@,
    {
        TaskListState { tasks: clone_items(&self.tasks), selected: self.selected }
    }
}

impl TaskListState {
    pub fn new(tasks: Vec<TaskItem>) -> (s: Self)
        ensures
            s@ == (TaskListStateView { tasks: item_views(tasks@), selected: 0 }),
    {
        TaskListState { tasks, selected: 0 }
    }

    pub fn empty() -> (s: Self)
        ensures
            s@.tasks.len() == 0,
            s@.selected == 0,
    {
        TaskListState { tasks: Vec::new(), selected: 0 }
    }

    /// Selects the next task (staying on the last one).
    pub fn select_next(&self) -> (s: Self)
        ensures
            s@ == (TaskListStateView {
                tasks: self@.tasks,
                selected: next_selected(self.selected, self.tasks.len() as nat),
            }),
    {
        let selected = if self.tasks.len() == 0 {
            0
        } else if self.selected >= self.tasks.len() - 1 {
            self.selected
        } else {
            self.selected + 1
        };
        TaskListState { tasks: clone_items(&self.tasks), selected }
    }

    /// Selects the previous task (staying on the first one).
    pub fn select_prev(&self) -> (s: Self)
        ensures
            s@ == (TaskListStateView { tasks: self@.tasks, selected: prev_selected(self.selected) }),
    {
        let selected = if self.selected > 0 {
            self.selected - 1
        } else {
            0
        };
        TaskListState { tasks: clone_items(&self.tasks), selected }
    }

    /// The selected task, if the selection points at one.
    pub fn selected_task(&self) -> (r: Option<&TaskItem>)
        ensures
            self.selected < self.tasks.len() ==> r == Some(&self.tasks@[self.selected as int]),
            self.selected >= self.tasks.len() ==> r is None,
    {
        if self.selected < self.tasks.len() {
            Some(&self.tasks[self.selected])
        } else {
            None
        }
    }

    /// Replaces the tasks, keeping the selection within the new list.
    pub fn update_tasks(&self, tasks: Vec<TaskItem>) -> (s: Self)
        ensures
            s@ == (TaskListStateView {
                tasks: item_views(tasks@),
                selected: kept_selected(self.selected, tasks.len() as nat),
            }),
    {
        let last = if tasks.len() == 0 {
            0
        } else {
            tasks.len() - 1
        };
        let selected = if self.selected <= last {
            self.selected
        } else {
            last
        };
        TaskListState { tasks, selected }
    }
}

/// The selection stays on a task under every move: starting from a
/// selection that points at a task, moving up or down keeps it there, and
/// replacing a non-empty list always leaves it pointing at a task.
pub proof fn law_selection_stays_in_list(selected: usize, len: nat, new_len: nat)
    requires
        selected < len,
    ensures
        next_selected(selected, len) < len,
        prev_selected(selected) < len,
        new_len > 0 ==> kept_selected(selected, new_len) < new_len,
{
}

/// Moving down and then up returns to the same task, unless the selection
/// was already on the last one.
pub proof fn law_down_then_up_returns(selected: usize, len: nat)
    requires
        selected + 1 < len,
        len <= usize::MAX,
    ensures
        prev_selected(next_selected(selected, len)) == selected,
{
}

} // verus!
