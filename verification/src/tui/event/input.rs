//! Key presses to actions, by view and open dialog.
use vstd::prelude::*;

use crate::text::owned;
use crate::tui::event::action::{action_view, opt_action_view, Action, ActionView};
use crate::tui::state::app_state::{AppState, AppStateView, ModalState, ViewMode, ViewModeView};
use crate::tui::state::task_list::TaskListStateView;

verus! {

/// The key that was pressed.
#[derive(Debug, Clone, Copy, PartialEq, Eq, Structural)]
pub enum KeyCode {
    Char(char),
    Enter,
    Esc,
    Up,
    Down,
    Left,
    Right,
    PageUp,
    PageDown,
    /// Any key the dashboard has no use for.
    Other,
}

/// A key press: the key and whether Control was held.
#[derive(Debug, Clone, Copy, PartialEq, Eq, Structural)]
pub struct KeyInput {
    pub code: KeyCode,
    pub control: bool,
}

pub open spec fn is_ctrl_c(key: KeyInput) -> bool {
    key.control && key.code == KeyCode::Char('c')
}

/// The dialog that asks before a task is reset.
pub open spec fn reset_confirm(name: Seq<char>) -> ActionView {
    ActionView::ShowConfirm {
        title: "Reset Task"@,
        message: "Reset task '"@ + name + "'? All progress will be lost."@,
        on_confirm: Box::new(ActionView::ResetTask(name)),
    }
}

/// The dialog that asks before a task is stopped.
pub open spec fn stop_confirm(name: Seq<char>) -> ActionView {
    ActionView::ShowConfirm {
        title: "Stop Task"@,
        message: "Stop task '"@ + name + "'?"@,
        on_confirm: Box::new(ActionView::StopTask(name)),
    }
}

/// What a key does while a dialog is open.
pub open spec fn modal_key_action(code: KeyCode, modal: ModalState) -> Option<ActionView> {
    match modal {
        ModalState::Help => match code {
            KeyCode::Esc | KeyCode::Char('q') | KeyCode::Char('?') | KeyCode::Enter => Some(
                ActionView::HideModal,
            ),
            _ => None,
        },
        ModalState::Confirm { .. } => match code {
            KeyCode::Char('y') | KeyCode::Char('Y') | KeyCode::Enter => Some(ActionView::ConfirmYes),
            KeyCode::Char('n') | KeyCode::Char('N') | KeyCode::Esc => Some(ActionView::ConfirmNo),
            _ => None,
        },
    }
}

/// The name of the selected task, if the selection points at one.
pub open spec fn selected_name(list: TaskListStateView) -> Option<Seq<char>> {
    if list.selected < list.tasks.len() {
        Some(list.tasks[list.selected as int].name)
    } else {
        None
    }
}

/// An action on the selected task, or none when nothing is selected.
pub open spec fn on_selected(
    selected: Option<Seq<char>>,
    f: spec_fn(Seq<char>) -> ActionView,
) -> Option<ActionView> {
    match selected {
        Some(n) => Some(f(n)),
        None => None,
    }
}

/// What a key does in the task list.
pub open spec fn list_key_action(key: KeyInput, selected: Option<Seq<char>>) -> Option<ActionView> {
    if is_ctrl_c(key) {
        Some(ActionView::Quit)
    } else {
        match key.code {
            KeyCode::Char('q') | KeyCode::Esc => Some(ActionView::Quit),
            KeyCode::Char('j') | KeyCode::Down => Some(ActionView::SelectNext),
            KeyCode::Char('k') | KeyCode::Up => Some(ActionView::SelectPrev),
            KeyCode::Enter | KeyCode::Char('l') | KeyCode::Right => if selected is Some {
                Some(ActionView::Enter)
            } else {
                None
            },
            KeyCode::Char('s') => on_selected(selected, |n: Seq<char>| ActionView::StartTask(n)),
            KeyCode::Char('n') => on_selected(selected, |n: Seq<char>| ActionView::NextTask(n)),
            KeyCode::Char('r') => on_selected(selected, |n: Seq<char>| ActionView::RetryTask(n)),
            KeyCode::Char('R') => on_selected(selected, |n: Seq<char>| reset_confirm(n)),
            KeyCode::Char('x') => on_selected(selected, |n: Seq<char>| stop_confirm(n)),
            KeyCode::Char('S') => on_selected(selected, |n: Seq<char>| ActionView::SkipTask(n)),
            KeyCode::Char('?') => Some(ActionView::ShowHelp),
            KeyCode::Char('g') => Some(ActionView::Refresh),
            _ => None,
        }
    }
}

/// The keys that leave a detail or viewport view, and the scroll keys.
pub open spec fn back_or_scroll(code: KeyCode) -> Option<ActionView> {
    match code {
        KeyCode::Char('q') | KeyCode::Esc | KeyCode::Char('h') | KeyCode::Left => Some(
            ActionView::Back,
        ),
        KeyCode::Char('j') | KeyCode::Down => Some(ActionView::ScrollDown),
        KeyCode::Char('k') | KeyCode::Up => Some(ActionView::ScrollUp),
        KeyCode::Char('d') | KeyCode::PageDown => Some(ActionView::PageDown),
        KeyCode::Char('u') | KeyCode::PageUp => Some(ActionView::PageUp),
        _ => None,
    }
}

/// What a key does in the detail view of task `name`.
pub open spec fn detail_key_action(key: KeyInput, name: Seq<char>) -> Option<ActionView> {
    if is_ctrl_c(key) {
        Some(ActionView::Quit)
    } else if back_or_scroll(key.code) is Some {
        back_or_scroll(key.code)
    } else {
        match key.code {
            KeyCode::Enter => Some(ActionView::SwitchToTmux(name)),
            KeyCode::Char('s') => Some(ActionView::StartTask(name)),
            KeyCode::Char('n') => Some(ActionView::NextTask(name)),
            KeyCode::Char('r') => Some(ActionView::RetryTask(name)),
            KeyCode::Char('R') => Some(reset_confirm(name)),
            KeyCode::Char('x') => Some(stop_confirm(name)),
            KeyCode::Char('S') => Some(ActionView::SkipTask(name)),
            KeyCode::Char('?') => Some(ActionView::ShowHelp),
            KeyCode::Char('g') => Some(ActionView::Refresh),
            _ => None,
        }
    }
}

/// What a key does in the viewport view of task `name`.
pub open spec fn tmux_key_action(key: KeyInput, name: Seq<char>) -> Option<ActionView> {
    if is_ctrl_c(key) {
        Some(ActionView::Quit)
    } else if back_or_scroll(key.code) is Some {
        back_or_scroll(key.code)
    } else {
        match key.code {
            KeyCode::Char('D') => Some(ActionView::DoneTask(name)),
            KeyCode::Char('F') => Some(ActionView::FailTask(name)),
            KeyCode::Char('B') => Some(ActionView::BlockTask(name)),
            KeyCode::Char('n') => Some(ActionView::NextTask(name)),
            KeyCode::Char('r') => Some(ActionView::RetryTask(name)),
            KeyCode::Char('x') => Some(stop_confirm(name)),
            KeyCode::Char('?') => Some(ActionView::ShowHelp),
            KeyCode::Char('g') => Some(ActionView::Refresh),
            _ => None,
        }
    }
}

/// What a key does: an open dialog takes it first, then the current view.
pub open spec fn key_action(key: KeyInput, s: AppStateView) -> Option<ActionView> {
    match s.modal {
        Some(m) => modal_key_action(key.code, m),
        None => match s.view {
            ViewModeView::TaskList => list_key_action(key, selected_name(s.task_list)),
            ViewModeView::TaskDetail(n) => detail_key_action(key, n),
            ViewModeView::TmuxView(n) => tmux_key_action(key, n),
        },
    }
}

fn reset_confirm_action(name: &String) -> (a: Action)
    ensures
        action_view(a) == reset_confirm(name@),
{
    let mut message = owned("Reset task '");
    message.append(name.as_str());
    message.append("'? All progress will be lost.");
    let inner = Action::ResetTask(name.clone());
    assert(action_view(inner) == ActionView::ResetTask(name@));
    let a = Action::ShowConfirm { title: owned("Reset Task"), message, on_confirm: Box::new(inner) };
    assert(action_view(a) == reset_confirm(name@)) by {
        reveal_with_fuel(action_view, 2);
    }
    a
}

fn stop_confirm_action(name: &String) -> (a: Action)
    ensures
        action_view(a) == stop_confirm(name@),
{
    let mut message = owned("Stop task '");
    message.append(name.as_str());
    message.append("'?");
    let inner = Action::StopTask(name.clone());
    assert(action_view(inner) == ActionView::StopTask(name@));
    let a = Action::ShowConfirm { title: owned("Stop Task"), message, on_confirm: Box::new(inner) };
    assert(action_view(a) == stop_confirm(name@)) by {
        reveal_with_fuel(action_view, 2);
    }
    a
}

fn ctrl_c(key: &KeyInput) -> (b: bool)
    ensures
        b == is_ctrl_c(*key),
{
    key.control && key.code == KeyCode::Char('c')
}

fn handle_modal_key(key: &KeyInput, modal: &ModalState) -> (r: Option<Action>)
    ensures
        opt_action_view(r) == modal_key_action(key.code, *modal),
{
    match modal {
        ModalState::Help => match key.code {
            KeyCode::Esc | KeyCode::Char('q') | KeyCode::Char('?') | KeyCode::Enter => Some(
                Action::HideModal,
            ),
            _ => None,
        },
        ModalState::Confirm { .. } => match key.code {
            KeyCode::Char('y') | KeyCode::Char('Y') | KeyCode::Enter => Some(Action::ConfirmYes),
            KeyCode::Char('n') | KeyCode::Char('N') | KeyCode::Esc => Some(Action::ConfirmNo),
            _ => None,
        },
    }
}

fn handle_task_list_key(key: &KeyInput, state: &AppState) -> (r: Option<Action>)
    ensures
        opt_action_view(r) == list_key_action(*key, selected_name(state@.task_list)),
{
    if ctrl_c(key) {
        return Some(Action::Quit);
    }
    let selected = state.task_list.selected_task();
    let name: Option<&String> = match selected {
        Some(t) => Some(&t.name),
        None => None,
    };
    proof {
        let tl = state.task_list;
        if tl.selected < tl.tasks.len() {
            assert(state@.task_list.tasks[tl.selected as int] == tl.tasks@[tl.selected as int]@);
        }
    }
    match key.code {
        KeyCode::Char('q') | KeyCode::Esc => Some(Action::Quit),
        KeyCode::Char('j') | KeyCode::Down => Some(Action::SelectNext),
        KeyCode::Char('k') | KeyCode::Up => Some(Action::SelectPrev),
        KeyCode::Enter | KeyCode::Char('l') | KeyCode::Right => match name {
            Some(_) => Some(Action::Enter),
            None => None,
        },
        KeyCode::Char('s') => match name {
            Some(n) => Some(Action::StartTask(n.clone())),
            None => None,
        },
        KeyCode::Char('n') => match name {
            Some(n) => Some(Action::NextTask(n.clone())),
            None => None,
        },
        KeyCode::Char('r') => match name {
            Some(n) => Some(Action::RetryTask(n.clone())),
            None => None,
        },
        KeyCode::Char('R') => match name {
            Some(n) => Some(reset_confirm_action(n)),
            None => None,
        },
        KeyCode::Char('x') => match name {
            Some(n) => Some(stop_confirm_action(n)),
            None => None,
        },
        KeyCode::Char('S') => match name {
            Some(n) => Some(Action::SkipTask(n.clone())),
            None => None,
        },
        KeyCode::Char('?') => Some(Action::ShowHelp),
        KeyCode::Char('g') => Some(Action::Refresh),
        _ => None,
    }
}

fn back_or_scroll_action(code: KeyCode) -> (r: Option<Action>)
    ensures
        opt_action_view(r) == back_or_scroll(code),
{
    match code {
        KeyCode::Char('q') | KeyCode::Esc | KeyCode::Char('h') | KeyCode::Left => Some(
            Action::Back,
        ),
        KeyCode::Char('j') | KeyCode::Down => Some(Action::ScrollDown),
        KeyCode::Char('k') | KeyCode::Up => Some(Action::ScrollUp),
        KeyCode::Char('d') | KeyCode::PageDown => Some(Action::PageDown),
        KeyCode::Char('u') | KeyCode::PageUp => Some(Action::PageUp),
        _ => None,
    }
}

fn handle_task_detail_key(key: &KeyInput, name: &String) -> (r: Option<Action>)
    ensures
        opt_action_view(r) == detail_key_action(*key, name@),
{
    if ctrl_c(key) {
        return Some(Action::Quit);
    }
    let nav = back_or_scroll_action(key.code);
    if nav.is_some() {
        return nav;
    }
    match key.code {
        KeyCode::Enter => Some(Action::SwitchToTmux(name.clone())),
        KeyCode::Char('s') => Some(Action::StartTask(name.clone())),
        KeyCode::Char('n') => Some(Action::NextTask(name.clone())),
        KeyCode::Char('r') => Some(Action::RetryTask(name.clone())),
        KeyCode::Char('R') => Some(reset_confirm_action(name)),
        KeyCode::Char('x') => Some(stop_confirm_action(name)),
        KeyCode::Char('S') => Some(Action::SkipTask(name.clone())),
        KeyCode::Char('?') => Some(Action::ShowHelp),
        KeyCode::Char('g') => Some(Action::Refresh),
        _ => None,
    }
}

fn handle_tmux_view_key(key: &KeyInput, name: &String) -> (r: Option<Action>)
    ensures
        opt_action_view(r) == tmux_key_action(*key, name@),
{
    if ctrl_c(key) {
        return Some(Action::Quit);
    }
    let nav = back_or_scroll_action(key.code);
    if nav.is_some() {
        return nav;
    }
    match key.code {
        KeyCode::Char('D') => Some(Action::DoneTask(name.clone())),
        KeyCode::Char('F') => Some(Action::FailTask(name.clone())),
        KeyCode::Char('B') => Some(Action::BlockTask(name.clone())),
        KeyCode::Char('n') => Some(Action::NextTask(name.clone())),
        KeyCode::Char('r') => Some(Action::RetryTask(name.clone())),
        KeyCode::Char('x') => Some(stop_confirm_action(name)),
        KeyCode::Char('?') => Some(Action::ShowHelp),
        KeyCode::Char('g') => Some(Action::Refresh),
        _ => None,
    }
}

/// The action a key press asks for in the given state, if any.
pub fn handle_key_event(key: &KeyInput, state: &AppState) -> (r: Option<Action>)
    ensures
        opt_action_view(r) == key_action(*key, state@),
{
    if let Some(modal) = &state.modal {
        return handle_modal_key(key, modal);
    }
    match &state.view {
        ViewMode::TaskList => handle_task_list_key(key, state),
        ViewMode::TaskDetail(name) => handle_task_detail_key(key, name),
        ViewMode::TmuxView(name) => handle_tmux_view_key(key, name),
    }
}

/// Control-C quits from every view as long as no dialog is open.
pub proof fn law_ctrl_c_quits(key: KeyInput, s: AppStateView)
    requires
        is_ctrl_c(key),
        s.modal is None,
    ensures
        key_action(key, s) == Some(ActionView::Quit),
{
}

/// Escape closes any open dialog: it hides help and answers no to a
/// question.
pub proof fn law_escape_closes_dialog(key: KeyInput, s: AppStateView)
    requires
        key.code == KeyCode::Esc,
        s.modal is Some,
    ensures
        key_action(key, s) == Some(ActionView::HideModal) || key_action(key, s) == Some(
            ActionView::ConfirmNo,
        ),
        s.modal matches Some(ModalState::Confirm { .. }) ==> key_action(key, s) == Some(
            ActionView::ConfirmNo,
        ),
{
}

/// In the task list, a key that acts on a task acts on the selected one,
/// and does nothing when no task is selected.
pub proof fn law_list_keys_act_on_selection(key: KeyInput, s: AppStateView)
    requires
        s.modal is None,
        s.view is TaskList,
        !is_ctrl_c(key),
        key.code == KeyCode::Char('s'),
    ensures
        key_action(key, s) == on_selected(
            selected_name(s.task_list),
            |n: Seq<char>| ActionView::StartTask(n),
        ),
        s.task_list.selected >= s.task_list.tasks.len() ==> key_action(key, s) is None,
{
}

} // verus!
