pub mod app_state;
pub mod reducer;
pub mod task_detail;
pub mod task_list;
pub mod tmux_view;
