use pawl::model::state::TaskStatus;
use pawl::tui::event::action::Action;
use pawl::tui::state::app_state::{AppState, ModalState, ViewMode};
use pawl::tui::state::reducer::reduce;
use pawl::tui::state::task_list::{TaskItem, TaskListState};
use pawl::tui::state::tmux_view::TmuxViewState;

fn make_task(name: &str) -> TaskItem {
    TaskItem {
        name: name.to_string(),
        status: TaskStatus::Pending,
        current_step: 0,
        total_steps: 3,
        step_name: "Init".to_string(),
        blocked_by: vec![],
        message: None,
    }
}

// reducer

#[test]
fn test_quit() {
    let state = AppState::default();
    let state = reduce(state, Action::Quit);
    assert!(state.should_quit);
}

#[test]
fn reducer_test_navigation() {
    let tasks = vec![make_task("task1"), make_task("task2")];
    let state = AppState::with_tasks(tasks);

    assert_eq!(state.task_list.selected, 0);

    let state = reduce(state, Action::SelectNext);
    assert_eq!(state.task_list.selected, 1);

    let state = reduce(state, Action::SelectPrev);
    assert_eq!(state.task_list.selected, 0);
}

#[test]
fn test_view_switching() {
    let tasks = vec![make_task("task1")];
    let state = AppState::with_tasks(tasks);
    assert_eq!(state.view, ViewMode::TaskList);

    let state = reduce(state, Action::Enter);
    assert_eq!(state.view, ViewMode::TaskDetail("task1".to_string()));

    let state = reduce(state, Action::Back);
    assert_eq!(state.view, ViewMode::TaskList);

    let state = reduce(state, Action::Back);
    assert_eq!(state.view, ViewMode::TaskList);
}

#[test]
fn test_modal() {
    let state = AppState::default();
    assert!(state.modal.is_none());

    let state = reduce(state, Action::ShowHelp);
    assert_eq!(state.modal, Some(ModalState::Help));

    let state = reduce(state, Action::HideModal);
    assert!(state.modal.is_none());
}

#[test]
fn confirm_dialog_opens_and_closes() {
    let state = AppState::with_tasks(vec![make_task("task1")]);
    let state = reduce(
        state,
        Action::ShowConfirm {
            title: "Stop Task".to_string(),
            message: "Stop task 'task1'?".to_string(),
            on_confirm: Box::new(Action::StopTask("task1".to_string())),
        },
    );
    assert!(matches!(state.modal, Some(ModalState::Confirm { .. })));
    let state = reduce(state, Action::ConfirmNo);
    assert!(state.modal.is_none());
}

#[test]
fn enter_on_empty_list_stays_in_list() {
    let state = AppState::default();
    let state = reduce(state, Action::Enter);
    assert_eq!(state.view, ViewMode::TaskList);
}

#[test]
fn switch_to_tmux_then_back_drops_the_pane() {
    let state = AppState::with_tasks(vec![make_task("task1")]);
    let state = reduce(state, Action::SwitchToTmux("task1".to_string()));
    assert_eq!(state.view, ViewMode::TmuxView("task1".to_string()));
    assert!(state.tmux_view.is_some());
    let state = reduce(state, Action::Back);
    assert_eq!(state.view, ViewMode::TaskList);
    assert!(state.tmux_view.is_none());
}

// task list

#[test]
fn test_new_empty() {
    let state = TaskListState::empty();
    assert!(state.tasks.is_empty());
    assert_eq!(state.selected, 0);
}

#[test]
fn task_list_test_navigation() {
    let tasks = vec![make_task("task1"), make_task("task2"), make_task("task3")];
    let state = TaskListState::new(tasks);
    assert_eq!(state.selected, 0);

    let state = state.select_next();
    assert_eq!(state.selected, 1);

    let state = state.select_next();
    assert_eq!(state.selected, 2);

    let state = state.select_next();
    assert_eq!(state.selected, 2);

    let state = state.select_prev();
    assert_eq!(state.selected, 1);

    let state = state.select_prev();
    assert_eq!(state.selected, 0);

    let state = state.select_prev();
    assert_eq!(state.selected, 0);
}

#[test]
fn test_selected_task() {
    let tasks = vec![make_task("task1"), make_task("task2")];
    let state = TaskListState::new(tasks);
    assert_eq!(state.selected_task().unwrap().name, "task1");

    let state = state.select_next();
    assert_eq!(state.selected_task().unwrap().name, "task2");
}

#[test]
fn test_update_preserves_selection() {
    let tasks = vec![make_task("task1"), make_task("task2"), make_task("task3")];
    let state = TaskListState::new(tasks);
    let state = state.select_next().select_next();

    let new_tasks = vec![make_task("a"), make_task("b"), make_task("c")];
    let state = state.update_tasks(new_tasks);
    assert_eq!(state.selected, 2);

    let new_tasks = vec![make_task("x")];
    let state = state.update_tasks(new_tasks);
    assert_eq!(state.selected, 0);
}

#[test]
fn next_then_prev_returns_to_the_same_task() {
    let state = TaskListState::new(vec![make_task("a"), make_task("b"), make_task("c")]);
    let state = state.select_next();
    let back = state.select_next().select_prev();
    assert_eq!(back.selected, state.selected);
}

// tmux view

#[test]
fn test_new() {
    let state = TmuxViewState::new("test-task".to_string());
    assert_eq!(state.task_name, "test-task");
    assert!(state.content.is_empty());
    assert_eq!(state.scroll_offset, 0);
    assert!(state.auto_scroll);
    assert!(!state.window_exists);
}

#[test]
fn test_update_content_auto_scroll() {
    let state = TmuxViewState::new("task".to_string());
    assert!(state.auto_scroll);

    let content = "line1\nline2\nline3\nline4\nline5".to_string();
    let state = state.update_content(content, true);

    assert!(state.window_exists);
    assert_eq!(state.scroll_offset, 4);
    assert!(state.auto_scroll);
}

#[test]
fn test_scroll_up_disables_auto_scroll() {
    let state = TmuxViewState::new("task".to_string());
    let content = "line1\nline2\nline3\nline4\nline5".to_string();
    let state = state.update_content(content, true);

    assert!(state.auto_scroll);
    assert_eq!(state.scroll_offset, 4);

    let state = state.scroll_up(2);
    assert!(!state.auto_scroll);
    assert_eq!(state.scroll_offset, 2);

    let new_content = "line1\nline2\nline3\nline4\nline5\nline6".to_string();
    let state = state.update_content(new_content, true);
    assert_eq!(state.scroll_offset, 2);
    assert!(!state.auto_scroll);
}

#[test]
fn test_scroll_down_re_enables_auto_scroll() {
    let mut state = TmuxViewState::new("task".to_string());
    state.content = "line1\nline2\nline3\nline4\nline5".to_string();
    state.scroll_offset = 0;
    state.auto_scroll = false;

    let state = state.scroll_down(2);
    assert_eq!(state.scroll_offset, 2);
    assert!(!state.auto_scroll);

    let state = state.scroll_down(10);
    assert_eq!(state.scroll_offset, 4);
    assert!(state.auto_scroll);
}

#[test]
fn test_scroll_up_boundary() {
    let mut state = TmuxViewState::new("task".to_string());
    state.scroll_offset = 2;

    let state = state.scroll_up(5);
    assert_eq!(state.scroll_offset, 0);
}

#[test]
fn test_content_lines() {
    let mut state = TmuxViewState::new("task".to_string());
    state.content = "line1\nline2\nline3".to_string();

    let lines = state.content_lines();
    assert_eq!(lines, vec!["line1", "line2", "line3"]);
}

#[test]
fn test_empty_content() {
    let state = TmuxViewState::new("task".to_string());
    let lines = state.content_lines();
    assert!(lines.is_empty());

    let state = state.update_content(String::new(), false);
    assert_eq!(state.scroll_offset, 0);
}
