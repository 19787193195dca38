//! What a key press or a timer asks the dashboard to do.
use vstd::prelude::*;

verus! {

/// A user action, triggered by input or by the timer.
#[derive(Debug, PartialEq, Eq)]
pub enum Action {
    // Navigation
    Quit,
    Back,
    SelectNext,
    SelectPrev,
    Enter,
    ScrollUp,
    ScrollDown,
    PageUp,
    PageDown,
    // View switching
    SwitchToList,
    SwitchToDetail(String),
    SwitchToTmux(String),
    // Task operations
    StartTask(String),
    StopTask(String),
    ResetTask(String),
    NextTask(String),
    RetryTask(String),
    SkipTask(String),
    DoneTask(String),
    FailTask(String),
    BlockTask(String),
    // Modal
    ShowHelp,
    HideModal,
    // Confirm dialog
    ShowConfirm { title: String, message: String, on_confirm: Box<Action> },
    ConfirmYes,
    ConfirmNo,
    // Refresh
    Refresh,
    Tick,
}

/// An action with its names and texts taken as character sequences.
pub enum ActionView {
    Quit,
    Back,
    SelectNext,
    SelectPrev,
    Enter,
    ScrollUp,
    ScrollDown,
    PageUp,
    PageDown,
    SwitchToList,
    SwitchToDetail(Seq<char>),
    SwitchToTmux(Seq<char>),
    StartTask(Seq<char>),
    StopTask(Seq<char>),
    ResetTask(Seq<char>),
    NextTask(Seq<char>),
    RetryTask(Seq<char>),
    SkipTask(Seq<char>),
    DoneTask(Seq<char>),
    FailTask(Seq<char>),
    BlockTask(Seq<char>),
    ShowHelp,
    HideModal,
    ShowConfirm { title: Seq<char>, message: Seq<char>, on_confirm: Box<ActionView> },
    ConfirmYes,
    ConfirmNo,
    Refresh,
    Tick,
}

/// The view of an action.
pub open spec fn action_view(a: Action) -> ActionView
    decreases a,
{
    match a {
        Action::Quit => ActionView::Quit,
        Action::Back => ActionView::Back,
        Action::SelectNext => ActionView::SelectNext,
        Action::SelectPrev => ActionView::SelectPrev,
        Action::Enter => ActionView::Enter,
        Action::ScrollUp => ActionView::ScrollUp,
        Action::ScrollDown => ActionView::ScrollDown,
        Action::PageUp => ActionView::PageUp,
        Action::PageDown => ActionView::PageDown,
        Action::SwitchToList => ActionView::SwitchToList,
        Action::SwitchToDetail(n) => ActionView::SwitchToDetail(n@),
        Action::SwitchToTmux(n) => ActionView::SwitchToTmux(n@),
        Action::StartTask(n) => ActionView::StartTask(n@),
        Action::StopTask(n) => ActionView::StopTask(n@),
        Action::ResetTask(n) => ActionView::ResetTask(n@),
        Action::NextTask(n) => ActionView::NextTask(n@),
        Action::RetryTask(n) => ActionView::RetryTask(n@),
        Action::SkipTask(n) => ActionView::SkipTask(n@),
        Action::DoneTask(n) => ActionView::DoneTask(n@),
        Action::FailTask(n) => ActionView::FailTask(n@),
        Action::BlockTask(n) => ActionView::BlockTask(n@),
        Action::ShowHelp => ActionView::ShowHelp,
        Action::HideModal => ActionView::HideModal,
        Action::ShowConfirm { title, message, on_confirm } => ActionView::ShowConfirm {
            title: title@,
            message: message@,
            on_confirm: Box::new(action_view(*on_confirm)),
        },
        Action::ConfirmYes => ActionView::ConfirmYes,
        Action::ConfirmNo => ActionView::ConfirmNo,
        Action::Refresh => ActionView::Refresh,
        Action::Tick => ActionView::Tick,
    }
}

/// The view of an optional action.
pub open spec fn opt_action_view(a: Option<Action>) -> Option<ActionView> {
    match a {
        Some(a) => Some(action_view(a)),
        None => None,
    }
}

/// An exact copy of an action.
pub fn clone_action(a: &Action) -> (r: Action)
    ensures
        r == *a,
    decreases a,
{
    match a {
        Action::Quit => Action::Quit,
        Action::Back => Action::Back,
        Action::SelectNext => Action::SelectNext,
        Action::SelectPrev => Action::SelectPrev,
        Action::Enter => Action::Enter,
        Action::ScrollUp => Action::ScrollUp,
        Action::ScrollDown => Action::ScrollDown,
        Action::PageUp => Action::PageUp,
        Action::PageDown => Action::PageDown,
        Action::SwitchToList => Action::SwitchToList,
        Action::SwitchToDetail(n) => Action::SwitchToDetail(n.clone()),
        Action::SwitchToTmux(n) => Action::SwitchToTmux(n.clone()),
        Action::StartTask(n) => Action::StartTask(n.clone()),
        Action::StopTask(n) => Action::StopTask(n.clone()),
        Action::ResetTask(n) => Action::ResetTask(n.clone()),
        Action::NextTask(n) => Action::NextTask(n.clone()),
        Action::RetryTask(n) => Action::RetryTask(n.clone()),
        Action::SkipTask(n) => Action::SkipTask(n.clone()),
        Action::DoneTask(n) => Action::DoneTask(n.clone()),
        Action::FailTask(n) => Action::FailTask(n.clone()),
        Action::BlockTask(n) => Action::BlockTask(n.clone()),
        Action::ShowHelp => Action::ShowHelp,
        Action::HideModal => Action::HideModal,
        Action::ShowConfirm { title, message, on_confirm } => {
            let inner = clone_action(&**on_confirm);
            Action::ShowConfirm {
                title: title.clone(),
                message: message.clone(),
                on_confirm: Box::new(inner),
            }
        },
        Action::ConfirmYes => Action::ConfirmYes,
        Action::ConfirmNo => Action::ConfirmNo,
        Action::Refresh => Action::Refresh,
        Action::Tick => Action::Tick,
    }
}

impl Clone for Action {
    fn clone(&self) -> (r: Self)
        ensures
            r == *self,
    {
        clone_action(self)
    }
}

} // verus!
