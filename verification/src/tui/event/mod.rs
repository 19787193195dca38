pub mod action;
pub mod input;
