pub mod help_popup;
pub mod status_bar;
pub mod style;
pub mod task_list;
pub mod tmux_pane;
