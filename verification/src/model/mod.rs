pub mod config;
pub mod event;
pub mod state;
pub mod task;
