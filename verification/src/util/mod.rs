pub mod git;
pub mod shell;
pub mod tmux;
pub mod variable;
