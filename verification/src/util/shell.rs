//! The result of running a shell command.
use vstd::prelude::*;

verus! {

/// What a finished command produced.
#[derive(Debug, Clone, PartialEq, Eq)]
pub struct CommandResult {
    pub stdout: String,
    pub stderr: String,
    pub exit_code: i32,
    pub success: bool,
}

} // verus!
