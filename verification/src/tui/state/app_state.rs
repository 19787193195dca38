//! Root state of the dashboard.
use std::time::Instant;
use vstd::prelude::*;

use crate::text::owned;
use crate::tui::event::action::{clone_action, Action};
use crate::tui::state::task_detail::{TaskDetailState, TaskDetailStateView};
use crate::tui::state::task_list::{item_views, TaskItem, TaskListState, TaskListStateView};
use crate::tui::state::tmux_view::{TmuxViewState, TmuxViewStateView};

verus! {

#[verifier::external_type_specification]
#[verifier::external_body]
pub struct ExInstant(Instant);

/// The current instant of the monotonic clock (`Instant::now`).
#[verifier::external_body]
fn instant_now() -> Instant {
    Instant::now()
}

/// Whole seconds elapsed since `i` (`Instant::elapsed`, then `as_secs`).
#[verifier::external_body]
fn elapsed_secs(i: &Instant) -> u64 {
    i.elapsed().as_secs()
}

/// Which view is shown.
#[derive(Debug, PartialEq, Eq)]
pub enum ViewMode {
    TaskList,
    TaskDetail(String),
    TmuxView(String),
}

pub enum ViewModeView {
    TaskList,
    TaskDetail(Seq<char>),
    TmuxView(Seq<char>),
}

impl View for ViewMode {
    type V = ViewModeView;

    open spec fn view(&self) -> ViewModeView {
        match self {
            ViewMode::TaskList => ViewModeView::TaskList,
            ViewMode::TaskDetail(n) => ViewModeView::TaskDetail(n@),
            ViewMode::TmuxView(n) => ViewModeView::TmuxView(n@),
        }
    }
}

impl Clone for ViewMode {
    fn clone(&self) -> (r: Self)
        ensures
            r == *self,
    {
        match self {
            ViewMode::TaskList => ViewMode::TaskList,
            ViewMode::TaskDetail(n) => ViewMode::TaskDetail(n.clone()),
            ViewMode::TmuxView(n) => ViewMode::TmuxView(n.clone()),
        }
    }
}

/// A modal dialog over the view.
#[derive(Debug, PartialEq, Eq)]
pub enum ModalState {
    Help,
    /// A yes/no question; `on_confirm` runs on yes.
    Confirm { title: String, message: String, on_confirm: Box<Action> },
}

impl Clone for ModalState {
    fn clone(&self) -> (r: Self)
        ensures
            r == *self,
    {
        match self {
            ModalState::Help => ModalState::Help,
            ModalState::Confirm { title, message, on_confirm } => ModalState::Confirm {
                title: title.clone(),
                message: message.clone(),
                on_confirm: Box::new(clone_action(&**on_confirm)),
            },
        }
    }
}

/// A status line message that expires a few seconds after it was made.
#[derive(Debug)]
pub struct StatusMessage {
    pub text: String,
    pub is_error: bool,
    pub created_at: Instant,
}

impl Clone for StatusMessage {
    fn clone(&self) -> (r: Self)
        ensures
            r == *self,
    {
        StatusMessage { text: self.text.clone(), is_error: self.is_error, created_at: self.created_at }
    }
}

/// A message expires once more than three whole seconds have passed.
pub open spec fn expired_after(secs: u64) -> bool {
    secs > 3
}

impl StatusMessage {
    /// An informational message, made now.
    pub fn info(text: &str) -> (m: Self)
        ensures
            m.text@ == text@,
            !m.is_error,
    {
        StatusMessage { text: owned(text), is_error: false, created_at: instant_now() }
    }

    /// An error message, made now.
    pub fn error(text: &str) -> (m: Self)
        ensures
            m.text@ == text@,
            m.is_error,
    {
        StatusMessage { text: owned(text), is_error: true, created_at: instant_now() }
    }

    /// Whether the message is older than three seconds, given the seconds
    /// that have passed since it was made.
    pub fn is_expired_after(&self, secs: u64) -> (b: bool)
        ensures
            b == expired_after(secs),
    {
        secs > 3
    }

    /// Whether the message is older than three seconds now. What the clock
    /// reads is not known here; the answer is `is_expired_after` of it.
    pub fn is_expired(&self) -> (b: bool) {
        self.is_expired_after(elapsed_secs(&self.created_at))
    }
}

/// Root application state.
#[derive(Debug)]
pub struct AppState {
    pub view: ViewMode,
    pub task_list: TaskListState,
    pub task_detail: Option<TaskDetailState>,
    pub tmux_view: Option<TmuxViewState>,
    pub modal: Option<ModalState>,
    pub status_message: Option<StatusMessage>,
    pub should_quit: bool,
}

pub struct AppStateView {
    pub view: ViewModeView,
    pub task_list: TaskListStateView,
    pub task_detail: Option<TaskDetailStateView>,
    pub tmux_view: Option<TmuxViewStateView>,
    pub modal: Option<ModalState>,
    pub status_message: Option<StatusMessage>,
    pub should_quit: bool,
}

impl View for AppState {
    type V = AppStateView;

    open spec fn view(&self) -> AppStateView {
        AppStateView {
            view: self.view@,
            task_list: self.task_list@,
            task_detail: match self.task_detail {
                Some(d) => Some(d@),
                None => None,
            },
            tmux_view: match self.tmux_view {
                Some(t) => Some(t@),
                None => None,
            },
            modal: self.modal,
            status_message: self.status_message,
            should_quit: self.should_quit,
        }
    }
}

impl Clone for AppState {
    fn clone(&self) -> (r: Self)
        ensures
            r@ == self@,
    {
        let view = self.view.clone();
        let task_list = self.task_list.clone();
        let task_detail = match &self.task_detail {
            Some(d) => Some(d.clone()),
            None => None,
        };
        let tmux_view = match &self.tmux_view {
            Some(t) => Some(t.clone()),
            None => None,
        };
        let modal = match &self.modal {
            Some(m) => Some(m.clone()),
            None => None,
        };
        let status_message = match &self.status_message {
            Some(m) => Some(m.clone()),
            None => None,
        };
        assert(view == self.view);
        assert(task_list@ == self.task_list@);
        assert(modal == self.modal);
        assert(status_message == self.status_message);
        AppState { view, task_list, task_detail, tmux_view, modal, status_message, should_quit: self.should_quit }
    }
}

/// The state the dashboard starts in: the (empty) task list.
pub open spec fn initial_view(tasks: Seq<TaskItem>) -> AppStateView {
    AppStateView {
        view: ViewModeView::TaskList,
        task_list: TaskListStateView { tasks: item_views(tasks), selected: 0 },
        task_detail: None,
        tmux_view: None,
        modal: None,
        status_message: None,
        should_quit: false,
    }
}

impl Default for AppState {
    fn default() -> (s: Self)
        ensures
            s@ == initial_view(seq![]),
    {
        let s = AppState {
            view: ViewMode::TaskList,
            task_list: TaskListState::empty(),
            task_detail: None,
            tmux_view: None,
            modal: None,
            status_message: None,
            should_quit: false,
        };
        assert(s.task_list@.tasks =~= item_views(seq![]));
        s
    }
}

impl AppState {
    pub fn new() -> (s: Self)
        ensures
            s@ == initial_view(seq![]),
    {
        Self::default()
    }

    pub fn with_tasks(tasks: Vec<TaskItem>) -> (s: Self)
        ensures
            s@ == initial_view(tasks@),
    {
        AppState {
            view: ViewMode::TaskList,
            task_list: TaskListState::new(tasks),
            task_detail: None,
            tmux_view: None,
            modal: None,
            status_message: None,
            should_quit: false,
        }
    }

    /// The same state showing `message` in the status line.
    pub fn set_status(&self, message: StatusMessage) -> (s: Self)
        ensures
            s@ == (AppStateView { status_message: Some(message), ..self@ }),
    {
        let mut s = self.clone();
        s.status_message = Some(message);
        s
    }

    /// The same state without its status message when `expired` holds.
    pub fn without_status_if(&self, expired: bool) -> (s: Self)
        ensures
            s@ == (if expired && self.status_message is Some {
                AppStateView { status_message: None, ..self@ }
            } else {
                self@
            }),
    {
        let mut s = self.clone();
        if expired && self.status_message.is_some() {
            s.status_message = None;
        }
        s
    }

    /// The same state, without its status message once that has expired.
    /// Whether it has expired depends on the clock; either way nothing
    /// else changes.
    pub fn clear_expired_status(&self) -> (s: Self)
        ensures
            s@ == self@ || s@ == (AppStateView { status_message: None, ..self@ }),
            self.status_message is None ==> s@ == self@,
    {
        let expired = match &self.status_message {
            Some(msg) => msg.is_expired(),
            None => false,
        };
        self.without_status_if(expired)
    }
}

} // verus!
