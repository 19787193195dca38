use vstd::prelude::*;

verus! {

/// Typed error of the command layer. Each variant maps to its own process
/// exit code (2 to 7); anything else that goes wrong exits with 1.
#[derive(Debug, Clone, PartialEq, Eq)]
pub enum PawlError {
    StateConflict { task: String, status: String, message: String },
    Precondition { message: String },
    NotFound { message: String },
    AlreadyExists { message: String },
    Validation { message: String },
    Timeout { message: String },
}

/// The exit code that belongs to each kind of error.
pub open spec fn exit_code_of(e: PawlError) -> i32 {
    match e {
        PawlError::StateConflict { .. } => 2,
        PawlError::Precondition { .. } => 3,
        PawlError::NotFound { .. } => 4,
        PawlError::AlreadyExists { .. } => 5,
        PawlError::Validation { .. } => 6,
        PawlError::Timeout { .. } => 7,
    }
}

impl PawlError {
    pub fn exit_code(&self) -> (code: i32)
        ensures
            code == exit_code_of(*self),
            2 <= code <= 7,
    {
        match self {
            PawlError::StateConflict { .. } => 2,
            PawlError::Precondition { .. } => 3,
            PawlError::NotFound { .. } => 4,
            PawlError::AlreadyExists { .. } => 5,
            PawlError::Validation { .. } => 6,
            PawlError::Timeout { .. } => 7,
        }
    }
}

} // verus!
