//! The dashboard loop's decisions: what an action does to the state and
//! which outside work it calls for, and how the results of that work enter
//! the state. The loop itself (terminal, clock, provider) runs outside.
use vstd::prelude::*;

use crate::text::owned;
use crate::tui::data::provider::{action_label, TaskAction, TmuxCaptureResult};
use crate::tui::event::action::{clone_action, Action};
use crate::tui::state::app_state::{AppState, AppStateView, ModalState, StatusMessage, ViewMode, ViewModeView};
use crate::tui::state::reducer::{reduce, reduce_view, room_for};
use crate::tui::state::task_detail::TaskDetailState;
use crate::tui::state::task_list::{kept_selected, item_views, TaskItem, TaskListStateView};
use crate::tui::state::tmux_view::updated_view;

verus! {

/// Lines of a pane the viewport view captures.
pub const TMUX_CAPTURE_LINES: usize = 100;

/// Outside work an action calls for, after the state has been updated.
#[derive(Debug, PartialEq, Eq)]
pub enum Effect {
    Nothing,
    /// Reload the task list (and the detail shown, if any).
    Refresh,
    /// Load the detail of a task.
    LoadDetail(String),
    /// Capture the pane of a task's window.
    RefreshTmux(String),
    /// Run a task operation.
    Execute(TaskAction),
}

/// The work that follows an action, given the state after it.
pub open spec fn effect_fits(e: Effect, a: Action, after: AppStateView) -> bool {
    match a {
        Action::Refresh => e is Refresh,
        Action::Enter => match after.view {
            ViewModeView::TaskDetail(n) => e matches Effect::LoadDetail(m) && m@ == n,
            _ => e is Nothing,
        },
        Action::SwitchToTmux(n) => e matches Effect::RefreshTmux(m) && m@ == n@,
        Action::StartTask(n) => e matches Effect::Execute(TaskAction::Start(m)) && m@ == n@,
        Action::StopTask(n) => e matches Effect::Execute(TaskAction::Stop(m)) && m@ == n@,
        Action::ResetTask(n) => e matches Effect::Execute(TaskAction::Reset(m)) && m@ == n@,
        Action::NextTask(n) => e matches Effect::Execute(TaskAction::Next(m)) && m@ == n@,
        Action::RetryTask(n) => e matches Effect::Execute(TaskAction::Retry(m)) && m@ == n@,
        Action::SkipTask(n) => e matches Effect::Execute(TaskAction::Skip(m)) && m@ == n@,
        Action::DoneTask(n) => e matches Effect::Execute(TaskAction::Done(m)) && m@ == n@,
        Action::FailTask(n) => e matches Effect::Execute(TaskAction::Fail(m)) && m@ == n@,
        Action::BlockTask(n) => e matches Effect::Execute(TaskAction::Block(m)) && m@ == n@,
        _ => e is Nothing,
    }
}

fn effect_for(action: &Action, after: &AppState) -> (e: Effect)
    ensures
        effect_fits(e, *action, after@),
{
    match action {
        Action::Refresh => Effect::Refresh,
        Action::Enter => match &after.view {
            ViewMode::TaskDetail(n) => Effect::LoadDetail(n.clone()),
            _ => Effect::Nothing,
        },
        Action::SwitchToTmux(n) => Effect::RefreshTmux(n.clone()),
        Action::StartTask(n) => Effect::Execute(TaskAction::Start(n.clone())),
        Action::StopTask(n) => Effect::Execute(TaskAction::Stop(n.clone())),
        Action::ResetTask(n) => Effect::Execute(TaskAction::Reset(n.clone())),
        Action::NextTask(n) => Effect::Execute(TaskAction::Next(n.clone())),
        Action::RetryTask(n) => Effect::Execute(TaskAction::Retry(n.clone())),
        Action::SkipTask(n) => Effect::Execute(TaskAction::Skip(n.clone())),
        Action::DoneTask(n) => Effect::Execute(TaskAction::Done(n.clone())),
        Action::FailTask(n) => Effect::Execute(TaskAction::Fail(n.clone())),
        Action::BlockTask(n) => Effect::Execute(TaskAction::Block(n.clone())),
        _ => Effect::Nothing,
    }
}

/// Navigation, scrolling, dialogs and ticks do no outside work: the only
/// effect that fits them is none.
pub proof fn law_plain_actions_do_no_outside_work(e: Effect, a: Action, after: AppStateView)
    requires
        a is Quit || a is Back || a is SelectNext || a is SelectPrev || a is ScrollUp || a is ScrollDown
            || a is PageUp || a is PageDown || a is SwitchToList || a is SwitchToDetail || a is ShowHelp
            || a is HideModal || a is Tick,
        effect_fits(e, a, after),
    ensures
        e is Nothing,
{
}

/// Handles an action: the state after it and the work it calls for. A
/// "yes" to a question closes it and then handles the action that was
/// asked about.
pub fn handle_action(state: AppState, action: Action) -> (r: (AppState, Effect))
    requires
        room_for(state, action),
        match (action, state.modal) {
            (Action::ConfirmYes, Some(ModalState::Confirm { on_confirm, .. })) => room_for(state, *on_confirm),
            _ => true,
        },
    ensures
        match (action, state.modal) {
            (Action::ConfirmYes, Some(ModalState::Confirm { on_confirm, .. })) => {
                &&& r.0@ == reduce_view(reduce_view(state@, Action::ConfirmYes), *on_confirm)
                &&& effect_fits(r.1, *on_confirm, r.0@)
            },
            _ => {
                &&& r.0@ == reduce_view(state@, action)
                &&& effect_fits(r.1, action, r.0@)
            },
        },
{
    let confirmed = match (&action, &state.modal) {
        (Action::ConfirmYes, Some(ModalState::Confirm { on_confirm, .. })) => Some(
            clone_action(&**on_confirm),
        ),
        _ => None,
    };
    let after = reduce(state, clone_action(&action));
    match confirmed {
        Some(c) => {
            let again = reduce(after, clone_action(&c));
            let e = effect_for(&c, &again);
            (again, e)
        },
        None => {
            let e = effect_for(&action, &after);
            (after, e)
        },
    }
}

/// `prefix` followed by `text`.
fn prefixed(prefix: &str, text: &String) -> (r: String)
    ensures
        r@ == prefix@ + text@,
{
    let mut r = owned(prefix);
    r.append(text.as_str());
    r
}

/// The state after the task list was (re)loaded: the new tasks, or an
/// error message. Also the task whose detail is shown and must be reloaded.
pub fn apply_tasks_loaded(state: AppState, loaded: Result<Vec<TaskItem>, String>) -> (r: (
    AppState,
    Option<String>,
))
    ensures
        match loaded {
            Ok(tasks) => r.0@ == (AppStateView {
                task_list: TaskListStateView {
                    tasks: item_views(tasks@),
                    selected: kept_selected(state.task_list.selected, tasks.len() as nat),
                },
                ..state@
            }),
            Err(e) => r.0@.status_message matches Some(m) && m.is_error && m.text@ == "Load error: "@
                + e@ && r.0@ == (AppStateView { status_message: r.0@.status_message, ..state@ }),
        },
        match state.view {
            ViewMode::TaskDetail(n) => r.1 matches Some(m) && m@ == n@,
            _ => r.1 is None,
        },
{
    let detail = match &state.view {
        ViewMode::TaskDetail(n) => Some(n.clone()),
        _ => None,
    };
    let s = match loaded {
        Ok(tasks) => {
            let list = state.task_list.update_tasks(tasks);
            AppState { task_list: list, ..state }
        },
        Err(e) => {
            let m = prefixed("Load error: ", &e);
            state.set_status(StatusMessage::error(m.as_str()))
        },
    };
    (s, detail)
}

/// The state after a task's detail was loaded, or an error message.
pub fn apply_detail_loaded(state: AppState, loaded: Result<TaskDetailState, String>) -> (r: AppState)
    ensures
        match loaded {
            Ok(d) => r@ == (AppStateView { task_detail: Some(d@), ..state@ }),
            Err(e) => r@.status_message matches Some(m) && m.is_error && m.text@ == "Load error: "@
                + e@ && r@ == (AppStateView { status_message: r@.status_message, ..state@ }),
        },
{
    match loaded {
        Ok(d) => AppState { task_detail: Some(d), ..state },
        Err(e) => {
            let m = prefixed("Load error: ", &e);
            state.set_status(StatusMessage::error(m.as_str()))
        },
    }
}

/// The state after a pane was captured: the pane view shows the new
/// content. A failed capture changes nothing.
pub fn apply_capture(state: AppState, captured: Result<TmuxCaptureResult, String>) -> (r: AppState)
    ensures
        match (captured, state@.tmux_view) {
            (Ok(c), Some(t)) => r@ == (AppStateView {
                tmux_view: Some(updated_view(t, c.content@, c.window_exists)),
                ..state@
            }),
            _ => r@ == state@,
        },
{
    match captured {
        Ok(c) => match &state.tmux_view {
            Some(t) => {
                let nt = t.update_content(c.content, c.window_exists);
                AppState { tmux_view: Some(nt), ..state }
            },
            None => state,
        },
        Err(_) => state,
    }
}

/// The state after a task operation: its label as an information, or the
/// label and the error. Also whether the data must be reloaded (after a
/// success).
pub fn apply_action_result(state: AppState, action: &TaskAction, result: Result<(), String>) -> (r: (
    AppState,
    bool,
))
    ensures
        r.1 == result is Ok,
        r.0@ == (AppStateView { status_message: r.0@.status_message, ..state@ }),
        r.0@.status_message matches Some(m) && m.is_error == result is Err && m.text@ == match result {
            Ok(_) => action_label(*action),
            Err(e) => action_label(*action) + ": "@ + e@,
        },
{
    let label = action.label();
    match result {
        Ok(()) => (state.set_status(StatusMessage::info(label)), true),
        Err(e) => {
            let mut m = owned(label);
            m.append(": ");
            m.append(e.as_str());
            (state.set_status(StatusMessage::error(m.as_str())), false)
        },
    }
}

} // verus!
