//! The dashboard's state transitions: a pure function from state and
//! action to the next state.
use vstd::prelude::*;

use crate::tui::event::action::Action;
use crate::tui::state::app_state::{AppState, AppStateView, ModalState, ViewMode, ViewModeView};
use crate::tui::state::task_detail::{detail_scrolled_down, detail_scrolled_up};
use crate::tui::state::task_list::{next_selected, prev_selected, TaskListStateView};
use crate::tui::state::tmux_view::{
    scrolled_down_view, scrolled_up_view, TmuxViewState, TmuxViewStateView,
};

verus! {

/// Detail lines the detail view scrolls through at most.
pub const DETAIL_SCROLL_LINES: usize = 100;

/// Lines a page scroll moves.
pub const PAGE_LINES: usize = 10;

/// The view scrolled by `n` lines, up or down, in whichever scrollable view
/// is shown; the task list does not scroll.
pub open spec fn scrolled(s: AppStateView, n: usize, up: bool) -> AppStateView {
    match s.view {
        ViewModeView::TaskDetail(_) => match s.task_detail {
            Some(d) => AppStateView {
                task_detail: Some(
                    if up {
                        detail_scrolled_up(d, n)
                    } else {
                        detail_scrolled_down(d, n, DETAIL_SCROLL_LINES)
                    },
                ),
                ..s
            },
            None => s,
        },
        ViewModeView::TmuxView(_) => match s.tmux_view {
            Some(t) => AppStateView {
                tmux_view: Some(
                    if up {
                        scrolled_up_view(t, n)
                    } else {
                        scrolled_down_view(t, n)
                    },
                ),
                ..s
            },
            None => s,
        },
        ViewModeView::TaskList => s,
    }
}

/// Back to the task list, dropping the detail and pane states.
pub open spec fn to_list(s: AppStateView) -> AppStateView {
    AppStateView { view: ViewModeView::TaskList, task_detail: None, tmux_view: None, ..s }
}

/// The state after an action. Task operations, refresh and tick are the
/// app loop's business and leave the state unchanged here.
pub open spec fn reduce_view(s: AppStateView, a: Action) -> AppStateView {
    match a {
        Action::Quit => AppStateView { should_quit: true, ..s },
        Action::Back => if s.view is TaskList {
            s
        } else {
            to_list(s)
        },
        Action::SelectNext => AppStateView {
            task_list: TaskListStateView {
                selected: next_selected(s.task_list.selected, s.task_list.tasks.len()),
                ..s.task_list
            },
            ..s
        },
        Action::SelectPrev => AppStateView {
            task_list: TaskListStateView {
                selected: prev_selected(s.task_list.selected),
                ..s.task_list
            },
            ..s
        },
        Action::Enter => if s.task_list.selected < s.task_list.tasks.len() {
            AppStateView {
                view: ViewModeView::TaskDetail(s.task_list.tasks[s.task_list.selected as int].name),
                ..s
            }
        } else {
            s
        },
        Action::ScrollUp => scrolled(s, 1, true),
        Action::ScrollDown => scrolled(s, 1, false),
        Action::PageUp => scrolled(s, PAGE_LINES, true),
        Action::PageDown => scrolled(s, PAGE_LINES, false),
        Action::SwitchToList => to_list(s),
        Action::SwitchToDetail(name) => AppStateView { view: ViewModeView::TaskDetail(name@), ..s },
        Action::SwitchToTmux(name) => AppStateView {
            view: ViewModeView::TmuxView(name@),
            tmux_view: Some(
                TmuxViewStateView {
                    task_name: name@,
                    content: seq![],
                    scroll_offset: 0,
                    auto_scroll: true,
                    window_exists: false,
                },
            ),
            ..s
        },
        Action::ShowHelp => AppStateView { modal: Some(ModalState::Help), ..s },
        Action::HideModal => AppStateView { modal: None, ..s },
        Action::ShowConfirm { title, message, on_confirm } => AppStateView {
            modal: Some(ModalState::Confirm { title, message, on_confirm }),
            ..s
        },
        Action::ConfirmYes | Action::ConfirmNo => AppStateView { modal: None, ..s },
        _ => s,
    }
}

/// Room to scroll the shown view down by `n` lines: its offset plus `n`
/// fits in a `usize`. The task list does not scroll.
pub open spec fn down_room(s: AppState, n: usize) -> bool {
    match s.view {
        ViewMode::TaskDetail(_) => s.task_detail matches Some(d) ==> d.scroll_offset + n <= usize::MAX,
        ViewMode::TmuxView(_) => s.tmux_view matches Some(t) ==> t.scroll_offset + n <= usize::MAX,
        ViewMode::TaskList => true,
    }
}

/// What an action needs of the state: scrolling down needs room to scroll;
/// every other action accepts any state.
pub open spec fn room_for(s: AppState, a: Action) -> bool {
    match a {
        Action::ScrollDown => down_room(s, 1),
        Action::PageDown => down_room(s, PAGE_LINES),
        _ => true,
    }
}

fn scroll(state: AppState, n: usize, up: bool) -> (r: AppState)
    requires
        !up ==> down_room(state, n),
    ensures
        r@ == scrolled(state@, n, up),
{
    match &state.view {
        ViewMode::TaskDetail(_) => {
            if let Some(detail) = &state.task_detail {
                let d = if up {
                    detail.scroll_up(n)
                } else {
                    detail.scroll_down(n, DETAIL_SCROLL_LINES)
                };
                AppState { task_detail: Some(d), ..state }
            } else {
                state
            }
        },
        ViewMode::TmuxView(_) => {
            if let Some(tmux) = &state.tmux_view {
                let t = if up {
                    tmux.scroll_up(n)
                } else {
                    tmux.scroll_down(n)
                };
                AppState { tmux_view: Some(t), ..state }
            } else {
                state
            }
        },
        ViewMode::TaskList => state,
    }
}

/// Pure function that transforms state based on an action.
pub fn reduce(state: AppState, action: Action) -> (r: AppState)
    requires
        room_for(state, action),
    ensures
        r@ == reduce_view(state@, action),
{
    match action {
        Action::Quit => AppState { should_quit: true, ..state },
        Action::Back => match &state.view {
            ViewMode::TaskList => state,
            _ => AppState { view: ViewMode::TaskList, task_detail: None, tmux_view: None, ..state },
        },
        Action::SelectNext => AppState { task_list: state.task_list.select_next(), ..state },
        Action::SelectPrev => AppState { task_list: state.task_list.select_prev(), ..state },
        Action::Enter => {
            let name = match state.task_list.selected_task() {
                Some(task) => Some(task.name.clone()),
                None => None,
            };
            match name {
                Some(n) => AppState { view: ViewMode::TaskDetail(n), ..state },
                None => state,
            }
        },
        Action::ScrollUp => scroll(state, 1, true),
        Action::ScrollDown => scroll(state, 1, false),
        Action::PageUp => scroll(state, PAGE_LINES, true),
        Action::PageDown => scroll(state, PAGE_LINES, false),
        Action::SwitchToList => AppState {
            view: ViewMode::TaskList,
            task_detail: None,
            tmux_view: None,
            ..state
        },
        Action::SwitchToDetail(name) => AppState { view: ViewMode::TaskDetail(name), ..state },
        Action::SwitchToTmux(name) => {
            let view = ViewMode::TmuxView(name.clone());
            AppState { view, tmux_view: Some(TmuxViewState::new(name)), ..state }
        },
        Action::ShowHelp => AppState { modal: Some(ModalState::Help), ..state },
        Action::HideModal => AppState { modal: None, ..state },
        Action::ShowConfirm { title, message, on_confirm } => AppState {
            modal: Some(ModalState::Confirm { title, message, on_confirm }),
            ..state
        },
        Action::ConfirmYes | Action::ConfirmNo => AppState { modal: None, ..state },
        Action::StartTask(_)
        | Action::StopTask(_)
        | Action::ResetTask(_)
        | Action::NextTask(_)
        | Action::RetryTask(_)
        | Action::SkipTask(_)
        | Action::DoneTask(_)
        | Action::FailTask(_)
        | Action::BlockTask(_)
        | Action::Refresh
        | Action::Tick => state,
    }
}

/// Showing a dialog and then hiding it returns to the state before it.
pub proof fn law_modal_round_trip(s: AppStateView)
    requires
        s.modal is None,
    ensures
        reduce_view(reduce_view(s, Action::ShowHelp), Action::HideModal) == s,
{
}

/// Going back to the list from any view lands on the task list with no
/// detail or pane state, and going back again changes nothing.
pub proof fn law_back_is_idempotent(s: AppStateView)
    ensures
        reduce_view(s, Action::Back).view is TaskList,
        reduce_view(reduce_view(s, Action::Back), Action::Back) == reduce_view(s, Action::Back),
{
}

/// Only navigation changes the selection: the view, the dialog and the
/// quit flag are untouched by it.
pub proof fn law_navigation_keeps_the_rest(s: AppStateView)
    ensures
        ({
            let n = reduce_view(s, Action::SelectNext);
            &&& n.view == s.view
            &&& n.modal == s.modal
            &&& n.should_quit == s.should_quit
            &&& n.task_list.tasks == s.task_list.tasks
        }),
{
}

} // verus!
