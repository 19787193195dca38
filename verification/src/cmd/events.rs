//! What `events` prints: each log line tagged with its task.
use vstd::prelude::*;

use crate::model::task::{nonempty_trimmed, split_nonempty_trimmed, string_views, strings_of};
use crate::text::{chars_of, owned, slice, split, str_eq, string_of, trim, trim_vec};

verus! {

/// A log line as `events` prints it: trimmed; a JSON object gets the task
/// as its first field; an empty line is not printed.
pub open spec fn tagged_line(task: Seq<char>, line: Seq<char>) -> Option<Seq<char>> {
    let t = trim(line);
    if t.len() == 0 {
        None
    } else if t[0] == '{' {
        Some("{\"task\":\""@ + task + "\","@ + t.skip(1))
    } else {
        Some(t)
    }
}

/// The line to print for a log line of a task, if any.
pub fn tag_event_line(task: &str, line: &str) -> (r: Option<String>)
    ensures
        match r {
            Some(s) => tagged_line(task@, line@) == Some(s@),
            None => tagged_line(task@, line@) is None,
        },
{
    let t = trim_vec(&chars_of(line));
    if t.len() == 0 {
        return None;
    }
    if t[0] == '{' {
        let mut s = owned("{\"task\":\"");
        s.append(task);
        s.append("\",");
        s.append(string_of(&slice(&t, 1, t.len())).as_str());
        assert(t@.subrange(1, t@.len() as int) =~= t@.skip(1));
        Some(s)
    } else {
        Some(string_of(&t))
    }
}

/// The event kinds a `--type` filter names: comma-separated, trimmed.
pub fn parse_type_filter(filter: &str) -> (r: Vec<String>)
    ensures
        string_views(r@) == nonempty_trimmed(split(filter@, ',')),
{
    strings_of(&split_nonempty_trimmed(&chars_of(filter), ','))
}

fn contains_string(k: &Vec<String>, tag: &str) -> (b: bool)
    ensures
        b == string_views(k@).contains(tag@),
{
    let mut i: usize = 0;
    while i < k.len()
        invariant
            i <= k.len(),
            forall|j: int| 0 <= j < i ==> string_views(k@)[j] != tag@,
        decreases k.len() - i,
    {
        if str_eq(k[i].as_str(), tag) {
            assert(string_views(k@)[i as int] == tag@);
            return true;
        }
        i = i + 1;
    }
    false
}

/// Whether an event kind passes a filter (no filter passes every kind).
pub fn type_passes(kinds: &Option<Vec<String>>, tag: &str) -> (b: bool)
    ensures
        b == match *kinds {
            Some(k) => string_views(k@).contains(tag@),
            None => true,
        },
{
    match kinds {
        None => true,
        Some(k) => contains_string(k, tag),
    }
}

} // verus!
