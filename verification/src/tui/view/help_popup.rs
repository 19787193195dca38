//! The help dialog: key bindings of each view.
use vstd::prelude::*;

use crate::tui::state::app_state::{ViewMode, ViewModeView};

verus! {

pub open spec fn common_help() -> Seq<(Seq<char>, Seq<char>)> {
    seq![
        ("q/Esc"@, "Quit / Back"@),
        ("?"@, "Toggle help"@),
        ("g"@, "Refresh"@),
    ]
}

/// Key bindings listed for a view: the common ones, then the view's own.
pub open spec fn help_items_of(v: ViewModeView) -> Seq<(Seq<char>, Seq<char>)> {
    common_help() + match v {
        ViewModeView::TaskList => seq![
            ("j/Down"@, "Move down"@),
            ("k/Up"@, "Move up"@),
            ("Enter"@, "View detail / tmux"@),
            (""@, ""@),
            ("s"@, "Start task"@),
            ("n"@, "Next (checkpoint)"@),
            ("r"@, "Retry step"@),
            ("S"@, "Skip step"@),
            ("R"@, "Reset task"@),
            ("x"@, "Stop task"@),
        ],
        ViewModeView::TaskDetail(_) => seq![
            ("j/Down"@, "Scroll down"@),
            ("k/Up"@, "Scroll up"@),
            ("Enter"@, "View tmux (if running)"@),
            (""@, ""@),
            ("s"@, "Start task"@),
            ("n"@, "Next (checkpoint)"@),
            ("r"@, "Retry step"@),
            ("S"@, "Skip step"@),
            ("R"@, "Reset task"@),
            ("x"@, "Stop task"@),
        ],
        ViewModeView::TmuxView(_) => seq![
            ("j/Down"@, "Scroll down"@),
            ("k/Up"@, "Scroll up"@),
            ("d/PgDn"@, "Page down"@),
            ("u/PgUp"@, "Page up"@),
            (""@, ""@),
            ("D"@, "Mark done"@),
            ("F"@, "Mark failed"@),
            ("B"@, "Mark blocked"@),
            ("n"@, "Next (checkpoint)"@),
            ("r"@, "Retry step"@),
            ("x"@, "Stop task"@),
        ],
    }
}

pub open spec fn pair_str_views(v: Seq<(&'static str, &'static str)>) -> Seq<(Seq<char>, Seq<char>)> {
    v.map_values(|p: (&'static str, &'static str)| (p.0@, p.1@))
}

/// The key bindings the help dialog lists for `view`.
pub fn get_help_items(view: &ViewMode) -> (r: Vec<(&'static str, &'static str)>)
    ensures
        pair_str_views(r@) == help_items_of(view@),
{
    let mut items: Vec<(&'static str, &'static str)> = Vec::new();
    items.push(("q/Esc", "Quit / Back"));
    items.push(("?", "Toggle help"));
    items.push(("g", "Refresh"));
    match view {
        ViewMode::TaskList => {
            items.push(("j/Down", "Move down"));
            items.push(("k/Up", "Move up"));
            items.push(("Enter", "View detail / tmux"));
            items.push(("", ""));
            items.push(("s", "Start task"));
            items.push(("n", "Next (checkpoint)"));
            items.push(("r", "Retry step"));
            items.push(("S", "Skip step"));
            items.push(("R", "Reset task"));
            items.push(("x", "Stop task"));
        },
        ViewMode::TaskDetail(_) => {
            items.push(("j/Down", "Scroll down"));
            items.push(("k/Up", "Scroll up"));
            items.push(("Enter", "View tmux (if running)"));
            items.push(("", ""));
            items.push(("s", "Start task"));
            items.push(("n", "Next (checkpoint)"));
            items.push(("r", "Retry step"));
            items.push(("S", "Skip step"));
            items.push(("R", "Reset task"));
            items.push(("x", "Stop task"));
        },
        ViewMode::TmuxView(_) => {
            items.push(("j/Down", "Scroll down"));
            items.push(("k/Up", "Scroll up"));
            items.push(("d/PgDn", "Page down"));
            items.push(("u/PgUp", "Page up"));
            items.push(("", ""));
            items.push(("D", "Mark done"));
            items.push(("F", "Mark failed"));
            items.push(("B", "Mark blocked"));
            items.push(("n", "Next (checkpoint)"));
            items.push(("r", "Retry step"));
            items.push(("x", "Stop task"));
        },
    }
    assert(pair_str_views(items@) =~= help_items_of(view@));
    items
}

pub open spec fn help_title_of(v: ViewModeView) -> Seq<char> {
    match v {
        ViewModeView::TaskList => " Help - Task List "@,
        ViewModeView::TaskDetail(_) => " Help - Task Detail "@,
        ViewModeView::TmuxView(_) => " Help - Tmux View "@,
    }
}

/// Title of the help dialog over `view`.
pub fn help_title(view: &ViewMode) -> (r: &'static str)
    ensures
        r@ == help_title_of(view@),
{
    match view {
        ViewMode::TaskList => " Help - Task List ",
        ViewMode::TaskDetail(_) => " Help - Task Detail ",
        ViewMode::TmuxView(_) => " Help - Tmux View ",
    }
}

} // verus!
