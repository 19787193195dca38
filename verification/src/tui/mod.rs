pub mod data;
pub mod event;
pub mod state;
pub mod view;
pub mod app;
