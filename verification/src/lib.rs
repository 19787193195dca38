pub mod cli;
pub mod cmd;
pub mod error;
pub mod model;
pub mod text;
pub mod tui;
pub mod util;
pub mod viewport;
