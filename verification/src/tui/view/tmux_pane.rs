//! The texts around the pane view.
use vstd::prelude::*;

use crate::text::{decimal, owned, usize_to_decimal};

verus! {

/// The title: the task and whether its window is live.
pub open spec fn title_of(task: Seq<char>, window_exists: bool) -> Seq<char> {
    " Tmux: "@ + task + if window_exists {
        " (live) "@
    } else {
        " (disconnected) "@
    }
}

pub fn title(task: &str, window_exists: bool) -> (r: String)
    ensures
        r@ == title_of(task@, window_exists),
{
    let mut r = owned(" Tmux: ");
    r.append(task);
    if window_exists {
        r.append(" (live) ");
    } else {
        r.append(" (disconnected) ");
    }
    r
}

/// Where the view is: following the output, or at a line of how many.
pub open spec fn scroll_indicator_of(auto_scroll: bool, offset: usize, line_count: usize) -> Seq<char> {
    if auto_scroll {
        " [auto-scroll] "@
    } else {
        " [line "@ + decimal(offset + 1) + "/"@ + decimal(
            if line_count > 1 {
                line_count as int
            } else {
                1
            },
        ) + "] "@
    }
}

pub fn scroll_indicator(auto_scroll: bool, offset: usize, line_count: usize) -> (r: String)
    requires
        offset < usize::MAX,
    ensures
        r@ == scroll_indicator_of(auto_scroll, offset, line_count),
{
    if auto_scroll {
        return owned(" [auto-scroll] ");
    }
    let mut r = owned(" [line ");
    r.append(usize_to_decimal(offset + 1).as_str());
    r.append("/");
    let total = if line_count > 1 {
        line_count
    } else {
        1
    };
    r.append(usize_to_decimal(total).as_str());
    r.append("] ");
    r
}

} // verus!
