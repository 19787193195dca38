//! Git: which task names make valid branch names, and the commands that ask
//! git itself.
use vstd::prelude::*;

use crate::error::PawlError;
use crate::text::{
    chars_of, contains, contains_char, contains_char_vec, contains_vec, ends_with, ends_with_vec, owned,
};

verus! {

/// The characters a task name may not hold, in the order they are checked.
pub open spec fn forbidden_chars() -> Seq<char> {
    seq![' ', '~', '^', ':', '?', '*', '[', '@', '{', '\\']
}

/// The first forbidden character (in the order of `cs`) that the name holds.
pub open spec fn first_forbidden(name: Seq<char>, cs: Seq<char>) -> Option<char>
    decreases cs.len(),
{
    if cs.len() == 0 {
        None
    } else if contains_char(name, cs[0]) {
        Some(cs[0])
    } else {
        first_forbidden(name, cs.drop_first())
    }
}

/// What is wrong with a task name as the last part of a branch name, by the
/// rules checked here before git is asked.
pub open spec fn branch_name_problem(name: Seq<char>) -> Option<Seq<char>> {
    if name.len() == 0 {
        Some("Task name cannot be empty"@)
    } else if first_forbidden(name, forbidden_chars()) is Some {
        Some("Task name cannot contain '"@ + seq![first_forbidden(name, forbidden_chars())->0] + "'"@)
    } else if name[0] == '-' {
        Some("Task name cannot start with '-'"@)
    } else if name[0] == '.' {
        Some("Task name cannot start with '.'"@)
    } else if ends_with(name, ".lock"@) {
        Some("Task name cannot end with '.lock'"@)
    } else if contains(name, ".."@) {
        Some("Task name cannot contain '..'"@)
    } else {
        None
    }
}

/// The command that asks git whether the branch of a task is well formed.
pub open spec fn check_ref_format_text(name: Seq<char>) -> Seq<char> {
    "git check-ref-format 'refs/heads/pawl/"@ + name + "'"@
}

fn validation(message: String) -> (e: PawlError)
    ensures
        e == (PawlError::Validation { message }),
{
    PawlError::Validation { message }
}

/// Checks a task name against the rules for branch names. When they hold,
/// gives the `git check-ref-format` command that must succeed as well;
/// when git refuses the name, `rejected_by_git` gives the error.
pub fn validate_branch_name(name: &str) -> (r: Result<String, PawlError>)
    ensures
        match branch_name_problem(name@) {
            Some(m) => r matches Err(PawlError::Validation { message }) && message@ == m,
            None => r matches Ok(c) && c@ == check_ref_format_text(name@),
        },
{
    let v = chars_of(name);
    if v.len() == 0 {
        return Err(validation(owned("Task name cannot be empty")));
    }
    let forbidden: Vec<char> = vec![' ', '~', '^', ':', '?', '*', '[', '@', '{', '\\'];
    let mut i: usize = 0;
    assert(forbidden@ =~= forbidden_chars());
    assert(forbidden_chars().skip(0) =~= forbidden_chars());
    while i < forbidden.len()
        invariant
            i <= forbidden.len(),
            forbidden@ == forbidden_chars(),
            v@ == name@,
            first_forbidden(name@, forbidden_chars()) == first_forbidden(
                name@,
                forbidden_chars().skip(i as int),
            ),
        decreases forbidden.len() - i,
    {
        let c = forbidden[i];
        if contains_char_vec(&v, c) {
            let mut m = owned("Task name cannot contain '");
            let mut cs: Vec<char> = Vec::new();
            cs.push(c);
            m.append(crate::text::string_of(&cs).as_str());
            m.append("'");
            proof {
                assert(cs@ =~= seq![c]);
            }
            return Err(validation(m));
        }
        assert(forbidden_chars().skip(i as int).drop_first() =~= forbidden_chars().skip(i + 1));
        i = i + 1;
    }
    if v[0] == '-' {
        return Err(validation(owned("Task name cannot start with '-'")));
    }
    if v[0] == '.' {
        return Err(validation(owned("Task name cannot start with '.'")));
    }
    if ends_with_vec(&v, &chars_of(".lock")) {
        return Err(validation(owned("Task name cannot end with '.lock'")));
    }
    proof {
        reveal_strlit("..");
    }
    if contains_vec(&v, &chars_of("..")) {
        return Err(validation(owned("Task name cannot contain '..'")));
    }
    let mut c = owned("git check-ref-format 'refs/heads/pawl/");
    c.append(name);
    c.append("'");
    Ok(c)
}

/// The error for a task name that git refuses as a branch name.
pub fn rejected_by_git(name: &str) -> (e: PawlError)
    ensures
        e matches PawlError::Validation { message } && message@ == "'"@ + name@
            + "' is not a valid git branch name"@,
{
    let mut m = owned("'");
    m.append(name);
    m.append("' is not a valid git branch name");
    validation(m)
}

/// The answer for a task name once git has been asked about its branch:
/// the error of the rules checked here when one is broken, else success
/// exactly when git accepted the branch name, else `rejected_by_git`.
pub fn branch_name_verdict(name: &str, git_accepts: bool) -> (r: Result<(), PawlError>)
    ensures
        match branch_name_problem(name@) {
            Some(m) => r matches Err(PawlError::Validation { message }) && message@ == m,
            None => if git_accepts {
                r is Ok
            } else {
                r matches Err(PawlError::Validation { message }) && message@ == "'"@ + name@
                    + "' is not a valid git branch name"@
            },
        },
{
    match validate_branch_name(name) {
        Err(e) => Err(e),
        Ok(_) => {
            if git_accepts {
                Ok(())
            } else {
                Err(rejected_by_git(name))
            }
        },
    }
}

/// Prints the root directory of the repository.
pub fn repo_root_command() -> (c: String)
    ensures
        c@ == "git rev-parse --show-toplevel"@,
{
    owned("git rev-parse --show-toplevel")
}

/// Succeeds exactly when the branch exists.
pub fn branch_exists_command(branch: &str) -> (c: String)
    ensures
        c@ == "git rev-parse --verify refs/heads/"@ + branch@,
{
    let mut c = owned("git rev-parse --verify refs/heads/");
    c.append(branch);
    c
}

} // verus!
