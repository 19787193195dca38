pub mod common;
pub mod control;
pub mod create;
pub mod events;
pub mod init;
pub mod log;
pub mod done;
pub mod start;
pub mod status;
pub mod wait;
pub mod serve;
pub mod run;
