//! The texts of the status bar.
use vstd::prelude::*;

use crate::text::{decimal, owned, usize_to_decimal};
use crate::tui::state::app_state::{ViewMode, ViewModeView};

verus! {

/// The hint on the right of the status bar.
pub fn help_hint() -> (r: &'static str)
    ensures
        r@ == " Press ? for help "@,
{
    " Press ? for help "
}

/// The text on the left: the number of tasks, or the task shown.
pub open spec fn left_text_of(view: ViewModeView, task_count: usize) -> Seq<char> {
    match view {
        ViewModeView::TaskList => " "@ + decimal(task_count as int) + " tasks "@,
        ViewModeView::TaskDetail(n) => " Task: "@ + n + " "@,
        ViewModeView::TmuxView(n) => " Tmux: "@ + n + " "@,
    }
}

/// The text on the left of the status bar.
pub fn left_text(view: &ViewMode, task_count: usize) -> (r: String)
    ensures
        r@ == left_text_of(view@, task_count),
{
    let mut r = owned(" ");
    match view {
        ViewMode::TaskList => {
            r.append(usize_to_decimal(task_count).as_str());
            r.append(" tasks ");
        },
        ViewMode::TaskDetail(n) => {
            r = owned(" Task: ");
            r.append(n.as_str());
            r.append(" ");
        },
        ViewMode::TmuxView(n) => {
            r = owned(" Tmux: ");
            r.append(n.as_str());
            r.append(" ");
        },
    }
    r
}

/// The spaces between the message and the hint: what the width leaves of
/// the three texts, or none.
pub fn padding(width: usize, left: usize, hint: usize, message: usize) -> (p: usize)
    ensures
        p == if width >= left + hint + message {
            (width - left - hint - message) as usize
        } else {
            0
        },
{
    width.saturating_sub(left).saturating_sub(hint).saturating_sub(message)
}

} // verus!
