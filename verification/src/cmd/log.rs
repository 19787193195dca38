//! What `log` prints of a task's event log.
use vstd::prelude::*;

use crate::model::task::string_views;
use crate::text::{chars_of, contains, contains_vec};

verus! {

/// The text by which a log line records a task reset.
pub open spec fn reset_marker() -> Seq<char> {
    "\"type\":\"task_reset\""@
}

/// The position of the last line that records a task reset.
pub open spec fn last_reset_line(lines: Seq<Seq<char>>) -> Option<int>
    decreases lines.len(),
{
    if lines.len() == 0 {
        None
    } else if contains(lines.last(), reset_marker()) {
        Some(lines.len() - 1)
    } else {
        last_reset_line(lines.drop_last())
    }
}

/// The lines of the current run: those after the last task reset.
pub open spec fn current_run(lines: Seq<Seq<char>>) -> Seq<Seq<char>> {
    match last_reset_line(lines) {
        Some(p) => lines.skip(p + 1),
        None => lines,
    }
}

/// Keeps the lines of the current run: those after the last line that
/// records a task reset (all of them when there is none).
pub fn current_run_lines(lines: Vec<String>) -> (r: Vec<String>)
    ensures
        string_views(r@) == current_run(string_views(lines@)),
{
    let ghost lv = string_views(lines@);
    proof {
        reveal_strlit("\"type\":\"task_reset\"");
    }
    let marker = chars_of("\"type\":\"task_reset\"");
    let mut i = lines.len();
    assert(lv.take(i as int) =~= lv);
    while i > 0
        invariant
            i <= lines.len(),
            lv == string_views(lines@),
            marker@ == reset_marker(),
            marker@.len() > 0,
            last_reset_line(lv) == last_reset_line(lv.take(i as int)),
        decreases i,
    {
        assert(lv.take(i as int).drop_last() =~= lv.take(i - 1));
        assert(lv.take(i as int).last() == lines@[i - 1]@);
        if contains_vec(&chars_of(lines[i - 1].as_str()), &marker) {
            let mut r: Vec<String> = Vec::new();
            let mut k = i;
            while k < lines.len()
                invariant
                    i <= k <= lines.len(),
                    lv == string_views(lines@),
                    lv.len() == lines.len(),
                    string_views(r@) == lv.subrange(i as int, k as int),
                decreases lines.len() - k,
            {
                let ghost old_r = string_views(r@);
                r.push(lines[k].clone());
                assert(string_views(r@) =~= old_r.push(lv[k as int]));
                assert(lv.subrange(i as int, k + 1) =~= lv.subrange(i as int, k as int).push(lv[k as int]));
                k = k + 1;
            }
            assert(lv.skip(i as int) =~= lv.subrange(i as int, k as int));
            return r;
        }
        i = i - 1;
    }
    assert(lv.take(0) =~= Seq::<Seq<char>>::empty());
    lines
}

/// Which lines `log` prints: with `all` or a step, every line of the run
/// (only those about that step, when one is given); otherwise the last
/// line. `steps[i]` is the step line `i` is about.
pub open spec fn shown_lines(
    lines: Seq<Seq<char>>,
    steps: Seq<Option<usize>>,
    step: Option<usize>,
    all: bool,
) -> Seq<Seq<char>>
    decreases lines.len(),
{
    if all || step is Some {
        if lines.len() == 0 {
            seq![]
        } else {
            let rest = shown_lines(lines.drop_last(), steps.drop_last(), step, all);
            if step is None || steps.last() == step {
                rest.push(lines.last())
            } else {
                rest
            }
        }
    } else if lines.len() == 0 {
        seq![]
    } else {
        seq![lines.last()]
    }
}

/// The lines `log` prints.
pub fn select_log_lines(
    lines: &Vec<String>,
    steps: &Vec<Option<usize>>,
    step: Option<usize>,
    all: bool,
) -> (r: Vec<String>)
    requires
        steps.len() == lines.len(),
    ensures
        string_views(r@) == shown_lines(string_views(lines@), steps@, step, all),
{
    let ghost lv = string_views(lines@);
    let mut r: Vec<String> = Vec::new();
    if !(all || step.is_some()) {
        if lines.len() > 0 {
            r.push(lines[lines.len() - 1].clone());
        }
        assert(string_views(r@) =~= shown_lines(lv, steps@, step, all));
        return r;
    }
    let mut i: usize = 0;
    while i < lines.len()
        invariant
            i <= lines.len(),
            steps.len() == lines.len(),
            all || step is Some,
            lv == string_views(lines@),
            string_views(r@) == shown_lines(lv.take(i as int), steps@.take(i as int), step, all),
        decreases lines.len() - i,
    {
        assert(lv.take(i + 1).drop_last() =~= lv.take(i as int));
        assert(steps@.take(i + 1).drop_last() =~= steps@.take(i as int));
        let keep = match step {
            None => true,
            Some(s) => match steps[i] {
                Some(t) => t == s,
                None => false,
            },
        };
        if keep {
            r.push(lines[i].clone());
        }
        assert(string_views(r@) =~= shown_lines(
            lv.take(i + 1),
            steps@.take(i + 1),
            step,
            all,
        ));
        i = i + 1;
    }
    assert(lv.take(i as int) =~= lv);
    assert(steps@.take(i as int) =~= steps@);
    r
}

/// With a step given, the shown lines are those about that step, in order,
/// whether or not `--all` is given: one more line adds itself exactly when
/// it is about that step, and no line is shown of an empty log.
pub proof fn law_step_lines(
    lines: Seq<Seq<char>>,
    steps: Seq<Option<usize>>,
    k: usize,
    all: bool,
    x: Seq<char>,
    y: Option<usize>,
)
    ensures
        shown_lines(seq![], seq![], Some(k), all) == Seq::<Seq<char>>::empty(),
        shown_lines(lines.push(x), steps.push(y), Some(k), all) == if y == Some(k) {
            shown_lines(lines, steps, Some(k), all).push(x)
        } else {
            shown_lines(lines, steps, Some(k), all)
        },
        shown_lines(lines, steps, Some(k), true) == shown_lines(lines, steps, Some(k), false),
    decreases lines.len(),
{
    assert(lines.push(x).drop_last() =~= lines);
    assert(steps.push(y).drop_last() =~= steps);
    if lines.len() > 0 {
        law_step_lines(lines.drop_last(), steps.drop_last(), k, all, x, y);
    }
}

/// Without a step, `--all` shows every line of the run, in order, and
/// otherwise only the last line is shown.
pub proof fn law_run_lines(lines: Seq<Seq<char>>, steps: Seq<Option<usize>>, x: Seq<char>, y: Option<usize>)
    ensures
        shown_lines(lines, steps, None, true) == lines,
        shown_lines(lines.push(x), steps.push(y), None, false) == seq![x],
    decreases lines.len(),
{
    assert(lines.push(x).drop_last() =~= lines);
    if lines.len() > 0 {
        law_run_lines(lines.drop_last(), steps.drop_last(), x, y);
        assert(lines.drop_last().push(lines.last()) =~= lines);
    } else {
        assert(lines =~= Seq::<Seq<char>>::empty());
    }
}

} // verus!
