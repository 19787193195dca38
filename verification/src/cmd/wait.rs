//! The decisions of `wait`: which statuses are awaited, when waiting ends
//! and what it answers.
use vstd::prelude::*;

use crate::error::PawlError;
use crate::model::state::{
    invalid_status_message, law_unfinished_reaches_everything, parse_status, reachable, status_from_name, status_name, TaskStatus,
};
use crate::model::task::string_views;
use crate::text::{chars_of, join, owned, split, split_vec, string_of, trim, trim_vec, usize_to_decimal, decimal, views};

verus! {

/// The statuses of a comma-separated list, or the first piece that names
/// none.
pub open spec fn parsed_statuses(parts: Seq<Seq<char>>) -> Result<Seq<TaskStatus>, Seq<char>>
    decreases parts.len(),
{
    if parts.len() == 0 {
        Ok(seq![])
    } else {
        match parsed_statuses(parts.drop_last()) {
            Err(bad) => Err(bad),
            Ok(done) => match status_from_name(trim(parts.last())) {
                Some(s) => Ok(done.push(s)),
                None => Err(trim(parts.last())),
            },
        }
    }
}

/// Parses the `--until` list: comma-separated status names, each trimmed.
pub fn parse_statuses(until: &str) -> (r: Result<Vec<TaskStatus>, PawlError>)
    ensures
        match parsed_statuses(split(until@, ',')) {
            Ok(v) => r matches Ok(w) && w@ == v,
            Err(bad) => r matches Err(PawlError::Validation { message }) && message@
                == invalid_status_message(bad),
        },
{
    let parts = split_vec(&chars_of(until), ',');
    let ghost pv = views(parts@);
    let mut out: Vec<TaskStatus> = Vec::new();
    let mut i: usize = 0;
    while i < parts.len()
        invariant
            i <= parts.len(),
            pv == views(parts@),
            pv == split(until@, ','),
            parsed_statuses(pv.take(i as int)) == Ok::<Seq<TaskStatus>, Seq<char>>(out@),
        decreases parts.len() - i,
    {
        assert(pv.take(i + 1).drop_last() =~= pv.take(i as int));
        assert(pv.take(i + 1).last() == parts@[i as int]@);
        let t = string_of(&trim_vec(&parts[i]));
        match parse_status(t.as_str()) {
            Ok(s) => {
                out.push(s);
            },
            Err(e) => {
                proof {
                    lemma_parsed_statuses_error(pv, i as int);
                }
                return Err(e);
            },
        }
        i = i + 1;
    }
    assert(pv.take(i as int) =~= pv);
    Ok(out)
}

proof fn lemma_parsed_statuses_error(pv: Seq<Seq<char>>, i: int)
    requires
        0 <= i < pv.len(),
        parsed_statuses(pv.take(i)) is Ok,
        status_from_name(trim(pv[i])) is None,
    ensures
        parsed_statuses(pv) == Err::<Seq<TaskStatus>, Seq<char>>(trim(pv[i])),
    decreases pv.len() - i,
{
    assert(pv.take(i + 1).drop_last() =~= pv.take(i));
    lemma_parsed_statuses_stays_err(pv, i + 1);
}

proof fn lemma_parsed_statuses_stays_err(pv: Seq<Seq<char>>, k: int)
    requires
        0 < k <= pv.len(),
        parsed_statuses(pv.take(k)) is Err,
    ensures
        parsed_statuses(pv) == parsed_statuses(pv.take(k)),
    decreases pv.len() - k,
{
    if k < pv.len() {
        assert(pv.take(k + 1).drop_last() =~= pv.take(k));
        lemma_parsed_statuses_stays_err(pv, k + 1);
    } else {
        assert(pv.take(k) =~= pv);
    }
}

/// A task can never reach any of the targets: it is at none of them and
/// can reach none of them without a reset.
pub open spec fn terminal_mismatch(current: TaskStatus, targets: Seq<TaskStatus>) -> bool {
    forall|i: int| 0 <= i < targets.len() ==> current != #[trigger] targets[i] && !reachable(current, targets[i])
}

/// Whether the current status can never reach any of the targets.
pub fn is_terminal_mismatch(current: TaskStatus, targets: &Vec<TaskStatus>) -> (b: bool)
    ensures
        b == terminal_mismatch(current, targets@),
{
    let mut i: usize = 0;
    while i < targets.len()
        invariant
            i <= targets.len(),
            forall|j: int| 0 <= j < i ==> current != #[trigger] targets@[j] && !reachable(current, targets@[j]),
        decreases targets.len() - i,
    {
        let t = targets[i];
        if current == t || current.can_reach(t) {
            return false;
        }
        i = i + 1;
    }
    true
}

/// How a round of checks ends.
#[derive(Debug, Clone, Copy, PartialEq, Eq, Structural)]
pub enum WaitRound {
    /// Keep waiting.
    Pending,
    /// With `--any`: the task at this position reached a target.
    AnyReached(usize),
    /// Every task has reached a target.
    AllReached,
    /// Waiting for all: the task at this position can never reach a target.
    Mismatch(usize),
}

pub open spec fn all_true(v: Seq<bool>) -> bool {
    forall|i: int| 0 <= i < v.len() ==> #[trigger] v[i]
}

/// One round of checks from task `i` on: each task not yet at a target is
/// looked at in order; reaching a target marks it (and ends the round with
/// `--any`); a task that can never get there ends the wait for all.
pub open spec fn round_from(
    statuses: Seq<TaskStatus>,
    reached: Seq<bool>,
    targets: Seq<TaskStatus>,
    any: bool,
    i: int,
) -> (Seq<bool>, WaitRound)
    decreases statuses.len() - i,
{
    if i >= statuses.len() {
        (reached, if all_true(reached) {
            WaitRound::AllReached
        } else {
            WaitRound::Pending
        })
    } else if reached[i] {
        round_from(statuses, reached, targets, any, i + 1)
    } else if targets.contains(statuses[i]) {
        if any {
            (reached.update(i, true), WaitRound::AnyReached(i as usize))
        } else {
            round_from(statuses, reached.update(i, true), targets, any, i + 1)
        }
    } else if terminal_mismatch(statuses[i], targets) && !any {
        (reached, WaitRound::Mismatch(i as usize))
    } else {
        round_from(statuses, reached, targets, any, i + 1)
    }
}

fn contains_status(targets: &Vec<TaskStatus>, s: TaskStatus) -> (b: bool)
    ensures
        b == targets@.contains(s),
{
    let mut i: usize = 0;
    while i < targets.len()
        invariant
            i <= targets.len(),
            forall|j: int| 0 <= j < i ==> targets@[j] != s,
        decreases targets.len() - i,
    {
        if targets[i] == s {
            assert(targets@[i as int] == s);
            return true;
        }
        i = i + 1;
    }
    false
}

/// One round of checks over the tasks being waited for. `statuses[i]` is
/// the current status of task `i` (looked at only while it has not reached
/// a target); `reached` records which have.
pub fn check_round(
    statuses: &Vec<TaskStatus>,
    reached: &mut Vec<bool>,
    targets: &Vec<TaskStatus>,
    any: bool,
) -> (r: WaitRound)
    requires
        statuses.len() == old(reached).len(),
    ensures
        (final(reached)@, r) == round_from(statuses@, old(reached)@, targets@, any, 0),
{
    let mut i: usize = 0;
    while i < statuses.len()
        invariant
            i <= statuses.len(),
            statuses.len() == reached.len(),
            round_from(statuses@, old(reached)@, targets@, any, 0) == round_from(
                statuses@,
                reached@,
                targets@,
                any,
                i as int,
            ),
        decreases statuses.len() - i,
    {
        if !reached[i] {
            let s = statuses[i];
            if contains_status(targets, s) {
                reached.set(i, true);
                if any {
                    return WaitRound::AnyReached(i);
                }
            } else if is_terminal_mismatch(s, targets) && !any {
                return WaitRound::Mismatch(i);
            }
        }
        i = i + 1;
    }
    let mut all = true;
    let mut k: usize = 0;
    while k < reached.len()
        invariant
            k <= reached.len(),
            all == forall|j: int| 0 <= j < k ==> #[trigger] reached@[j],
        decreases reached.len() - k,
    {
        if !reached[k] {
            all = false;
        }
        k = k + 1;
    }
    if all {
        WaitRound::AllReached
    } else {
        WaitRound::Pending
    }
}

/// The error for a task that can never reach the awaited statuses.
pub fn mismatch_error(task: &str, status: TaskStatus, until: &str) -> (e: PawlError)
    ensures
        e matches PawlError::StateConflict { task: t, status: s, message: m } && t@ == task@ && s@
            == status_name(status) && m@ == "will not reach any of '"@ + until@ + "'"@,
{
    let mut m = owned("will not reach any of '");
    m.append(until);
    m.append("'");
    PawlError::StateConflict { task: owned(task), status: status.to_string(), message: m }
}

/// `name=status` for each task.
pub open spec fn status_pairs(names: Seq<Seq<char>>, statuses: Seq<TaskStatus>) -> Seq<Seq<char>> {
    Seq::new(names.len(), |i: int| names[i] + "="@ + status_name(statuses[i]))
}

/// The message of a wait that timed out.
pub open spec fn timeout_text(names: Seq<Seq<char>>, until: Seq<char>, statuses: Seq<TaskStatus>) -> Seq<
    char,
> {
    "waiting for "@ + (if names.len() == 1 {
        "task '"@ + names[0] + "'"@
    } else {
        decimal(names.len() as int) + " tasks"@
    }) + " to reach '"@ + until + "' (current: "@ + join(status_pairs(names, statuses), ", "@)
        + ")"@
}

/// The error of a wait that timed out, with the status of each task.
pub fn timeout_error(names: &Vec<String>, until: &str, statuses: &Vec<TaskStatus>) -> (e: PawlError)
    requires
        statuses.len() == names.len(),
    ensures
        e matches PawlError::Timeout { message } && message@ == timeout_text(
            string_views(names@),
            until@,
            statuses@,
        ),
{
    let mut pairs: Vec<String> = Vec::new();
    let mut i: usize = 0;
    while i < names.len()
        invariant
            i <= names.len(),
            statuses.len() == names.len(),
            pairs@.map_values(|p: String| p@) == status_pairs(string_views(names@), statuses@).take(
                i as int,
            ),
        decreases names.len() - i,
    {
        let mut p = names[i].clone();
        p.append("=");
        p.append(statuses[i].as_str());
        let ghost sp = status_pairs(string_views(names@), statuses@);
        assert(p@ == sp[i as int]);
        let ghost before = pairs@.map_values(|p: String| p@);
        let ghost pv = p@;
        pairs.push(p);
        assert(pairs@.map_values(|p: String| p@) =~= before.push(pv));
        assert(sp.take(i + 1) =~= sp.take(i as int).push(sp[i as int]));
        i = i + 1;
        assert(pairs@.map_values(|p: String| p@) =~= status_pairs(string_views(names@), statuses@).take(
            i as int,
        ));
    }
    assert(status_pairs(string_views(names@), statuses@).take(i as int) =~= status_pairs(
        string_views(names@),
        statuses@,
    ));
    let mut m = owned("waiting for ");
    if names.len() == 1 {
        m.append("task '");
        m.append(names[0].as_str());
        m.append("'");
    } else {
        m.append(usize_to_decimal(names.len()).as_str());
        m.append(" tasks");
    }
    m.append(" to reach '");
    m.append(until);
    m.append("' (current: ");
    m.append(crate::text::join_strings(&pairs, ", ").as_str());
    m.append(")");
    PawlError::Timeout { message: m }
}

/// Once a task has reached a target it stays counted: a later round never
/// unmarks it.
pub proof fn law_reached_stays_reached(
    statuses: Seq<TaskStatus>,
    reached: Seq<bool>,
    targets: Seq<TaskStatus>,
    any: bool,
    i: int,
    k: int,
)
    requires
        statuses.len() == reached.len(),
        0 <= i,
        0 <= k < reached.len(),
        reached[k],
    ensures
        round_from(statuses, reached, targets, any, i).0.len() == reached.len(),
        round_from(statuses, reached, targets, any, i).0[k],
    decreases statuses.len() - i,
{
    if i < statuses.len() {
        if reached[i] {
            law_reached_stays_reached(statuses, reached, targets, any, i + 1, k);
        } else if targets.contains(statuses[i]) {
            if !any {
                law_reached_stays_reached(statuses, reached.update(i, true), targets, any, i + 1, k);
            }
        } else if terminal_mismatch(statuses[i], targets) && !any {
        } else {
            law_reached_stays_reached(statuses, reached, targets, any, i + 1, k);
        }
    }
}

/// A wait gives up on a task only when it has finished: a round ends in a
/// mismatch for a task that is completed, failed or stopped, never for one
/// that is pending, running or waiting (at a gate, say), which may still
/// get there.
pub proof fn law_mismatch_only_when_finished(
    statuses: Seq<TaskStatus>,
    reached: Seq<bool>,
    targets: Seq<TaskStatus>,
    any: bool,
    i: int,
)
    requires
        statuses.len() == reached.len(),
        statuses.len() <= usize::MAX,
        0 <= i,
        targets.len() > 0,
    ensures
        round_from(statuses, reached, targets, any, i).1 matches WaitRound::Mismatch(j) ==> {
            &&& 0 <= j < statuses.len()
            &&& (statuses[j as int] == TaskStatus::Completed || statuses[j as int] == TaskStatus::Failed
                || statuses[j as int] == TaskStatus::Stopped)
        },
    decreases statuses.len() - i,
{
    if i < statuses.len() {
        if reached[i] {
            law_mismatch_only_when_finished(statuses, reached, targets, any, i + 1);
        } else if targets.contains(statuses[i]) {
            if !any {
                law_mismatch_only_when_finished(statuses, reached.update(i, true), targets, any, i + 1);
            }
        } else {
            let st = statuses[i];
            if st == TaskStatus::Pending || st == TaskStatus::Running || st == TaskStatus::Waiting {
                law_unfinished_reaches_everything(st, targets[0]);
                assert(!terminal_mismatch(st, targets));
            }
            law_mismatch_only_when_finished(statuses, reached, targets, any, i + 1);
        }
    }
}

} // verus!
