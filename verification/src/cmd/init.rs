//! The `.gitignore` entries that `init` adds.
use vstd::prelude::*;

use crate::text::{chars_of, contains, contains_vec, ends_with, owned, trim_start, trim_start_vec, string_of};

verus! {

/// The lines added to `.gitignore`, with a blank line before them.
pub open spec fn gitignore_entries() -> Seq<char> {
    "\n# pawl - Resumable Step Sequencer\n.pawl/*\n!.pawl/config.json\n"@
}

/// The new content of `.gitignore`, or none when it mentions `.pawl/`
/// already: the entries alone for an empty file, else appended after a
/// line break.
pub open spec fn gitignore_update(current: Seq<char>) -> Option<Seq<char>> {
    if contains(current, ".pawl/"@) {
        None
    } else if current.len() == 0 {
        Some(trim_start(gitignore_entries()))
    } else if current.last() == '\n' {
        Some(current + gitignore_entries())
    } else {
        Some(current + "\n"@ + gitignore_entries())
    }
}

/// The new content of `.gitignore`, or none when it already holds the
/// pawl entries.
pub fn update_gitignore(current: &str) -> (r: Option<String>)
    ensures
        match r {
            Some(s) => gitignore_update(current@) == Some(s@),
            None => gitignore_update(current@) is None,
        },
{
    proof {
        reveal_strlit(".pawl/");
    }
    let cur = chars_of(current);
    if contains_vec(&cur, &chars_of(".pawl/")) {
        return None;
    }
    let entries = "\n# pawl - Resumable Step Sequencer\n.pawl/*\n!.pawl/config.json\n";
    if cur.len() == 0 {
        return Some(string_of(&trim_start_vec(&chars_of(entries))));
    }
    if cur[cur.len() - 1] == '\n' {
        let mut s = owned(current);
        s.append(entries);
        Some(s)
    } else {
        let mut s = owned(current);
        s.append("\n");
        s.append(entries);
        Some(s)
    }
}

} // verus!
