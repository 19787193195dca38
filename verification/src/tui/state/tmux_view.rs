//! The pane view: what a task's tmux window shows, and how far it is scrolled.
use vstd::prelude::*;

use crate::model::task::string_views;
use crate::text::{chars_of, lines, lines_vec, string_of, views};

verus! {

/// State of the tmux pane view.
#[derive(Debug)]
pub struct TmuxViewState {
    pub task_name: String,
    pub content: String,
    pub scroll_offset: usize,
    /// Follow the end of the content as it grows.
    pub auto_scroll: bool,
    pub window_exists: bool,
}

pub struct TmuxViewStateView {
    pub task_name: Seq<char>,
    pub content: Seq<char>,
    pub scroll_offset: usize,
    pub auto_scroll: bool,
    pub window_exists: bool,
}

impl View for TmuxViewState {
    type V = TmuxViewStateView;

    open spec fn view(&self) -> TmuxViewStateView {
        TmuxViewStateView {
            task_name: self.task_name@,
            content: self.content@,
            scroll_offset: self.scroll_offset,
            auto_scroll: self.auto_scroll,
            window_exists: self.window_exists,
        }
    }
}

impl Clone for TmuxViewState {
    fn clone(&self) -> (r: Self)
        ensures
            r@ == self@,
    {
        TmuxViewState {
            task_name: self.task_name.clone(),
            content: self.content.clone(),
            scroll_offset: self.scroll_offset,
            auto_scroll: self.auto_scroll,
            window_exists: self.window_exists,
        }
    }
}

/// The offset of the last line of `content` (0 when there is none).
pub open spec fn last_line_offset(content: Seq<char>) -> usize {
    let n = lines(content).len();
    if n == 0 {
        0
    } else {
        (n - 1) as usize
    }
}

/// The view after new content arrives.
pub open spec fn updated_view(v: TmuxViewStateView, content: Seq<char>, window_exists: bool) -> TmuxViewStateView {
    TmuxViewStateView {
        content,
        scroll_offset: if v.auto_scroll {
            last_line_offset(content)
        } else {
            v.scroll_offset
        },
        window_exists,
        ..v
    }
}

/// The view after scrolling up by `n` lines.
pub open spec fn scrolled_up_view(v: TmuxViewStateView, n: usize) -> TmuxViewStateView {
    TmuxViewStateView {
        scroll_offset: if v.scroll_offset >= n {
            (v.scroll_offset - n) as usize
        } else {
            0
        },
        auto_scroll: false,
        ..v
    }
}

/// The view after scrolling down by `n` lines.
pub open spec fn scrolled_down_view(v: TmuxViewStateView, n: usize) -> TmuxViewStateView {
    let max = last_line_offset(v.content);
    let target = v.scroll_offset + n;
    let offset = if target <= max {
        target as usize
    } else {
        max
    };
    TmuxViewStateView { scroll_offset: offset, auto_scroll: offset >= max, ..v }
}

fn last_line_offset_exec(content: &String) -> (r: usize)
    ensures
        r == last_line_offset(content@),
{
    let ls = lines_vec(&chars_of(content.as_str()));
    assert(views(ls@).len() == ls@.len());
    if ls.len() == 0 {
        0
    } else {
        ls.len() - 1
    }
}

impl TmuxViewState {
    pub fn new(task_name: String) -> (s: Self)
        ensures
            s@ == (TmuxViewStateView {
                task_name: task_name@,
                content: seq![],
                scroll_offset: 0,
                auto_scroll: true,
                window_exists: false,
            }),
    {
        TmuxViewState {
            task_name,
            content: String::new(),
            scroll_offset: 0,
            auto_scroll: true,
            window_exists: false,
        }
    }

    /// Shows new content; while following, scrolls to its last line.
    pub fn update_content(&self, content: String, window_exists: bool) -> (s: Self)
        ensures
            s@ == updated_view(self@, content@, window_exists),
    {
        let scroll_offset = if self.auto_scroll {
            last_line_offset_exec(&content)
        } else {
            self.scroll_offset
        };
        TmuxViewState {
            task_name: self.task_name.clone(),
            content,
            scroll_offset,
            auto_scroll: self.auto_scroll,
            window_exists,
        }
    }

    /// Scrolls up (not past the first line) and stops following.
    pub fn scroll_up(&self, lines: usize) -> (s: Self)
        ensures
            s@ == scrolled_up_view(self@, lines),
    {
        let scroll_offset = if self.scroll_offset >= lines {
            self.scroll_offset - lines
        } else {
            0
        };
        TmuxViewState {
            task_name: self.task_name.clone(),
            content: self.content.clone(),
            scroll_offset,
            auto_scroll: false,
            window_exists: self.window_exists,
        }
    }

    /// Scrolls down (not past the last line); reaching the last line
    /// resumes following.
    pub fn scroll_down(&self, lines: usize) -> (s: Self)
        requires
            self.scroll_offset + lines <= usize::MAX,
        ensures
            s@ == scrolled_down_view(self@, lines),
    {
        let max_offset = last_line_offset_exec(&self.content);
        let target = self.scroll_offset + lines;
        let new_offset = if target <= max_offset {
            target
        } else {
            max_offset
        };
        TmuxViewState {
            task_name: self.task_name.clone(),
            content: self.content.clone(),
            scroll_offset: new_offset,
            auto_scroll: new_offset >= max_offset,
            window_exists: self.window_exists,
        }
    }

    /// The content's lines.
    pub fn content_lines(&self) -> (r: Vec<String>)
        ensures
            string_views(r@) == lines(self.content@),
    {
        let ls = lines_vec(&chars_of(self.content.as_str()));
        let mut r: Vec<String> = Vec::new();
        let mut i: usize = 0;
        while i < ls.len()
            invariant
                i <= ls.len(),
                string_views(r@) == views(ls@).take(i as int),
            decreases ls.len() - i,
        {
            let ghost before = r@;
            let s = string_of(&ls[i]);
            r.push(s);
            assert(string_views(r@) =~= string_views(before).push(ls@[i as int]@));
            assert(views(ls@).take(i + 1) =~= views(ls@).take(i as int).push(ls@[i as int]@));
            i = i + 1;
        }
        assert(views(ls@).take(i as int) =~= views(ls@));
        r
    }
}

/// Scrolling up stops following the content; later content then leaves
/// the position alone. Scrolling down far enough to reach the last line
/// resumes following, and new content is then shown from its last line.
pub proof fn law_follow_mode(v: TmuxViewStateView, up: usize, down: usize, content: Seq<char>, w: bool)
    requires
        v.scroll_offset + down <= usize::MAX,
        v.scroll_offset + down >= last_line_offset(v.content),
    ensures
        !scrolled_up_view(v, up).auto_scroll,
        updated_view(scrolled_up_view(v, up), content, w).scroll_offset == scrolled_up_view(v, up).scroll_offset,
        scrolled_down_view(v, down).auto_scroll,
        scrolled_down_view(v, down).scroll_offset == last_line_offset(v.content),
        updated_view(scrolled_down_view(v, down), content, w).scroll_offset == last_line_offset(content),
{
}

} // verus!
