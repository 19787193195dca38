use pawl::error::PawlError;
use pawl::model::state::TaskStatus;
use pawl::tui::app::{apply_action_result, apply_capture, apply_tasks_loaded, handle_action, Effect};
use pawl::tui::data::provider::{TaskAction, TmuxCaptureResult};
use pawl::tui::event::action::Action;
use pawl::tui::event::input::{handle_key_event, KeyCode, KeyInput};
use pawl::tui::state::app_state::{AppState, ModalState, ViewMode};
use pawl::tui::state::reducer::reduce;
use pawl::tui::state::task_list::TaskItem;
use pawl::util::shell::CommandResult;
use pawl::util::tmux::{
    capture_pane, capture_pane_command, create_session_command, extract_session_id, output_value,
    pane_is_active, send_keys_command, CaptureResult, SessionIdStep,
};
use pawl::viewport::create_viewport;

fn key(c: char) -> KeyInput {
    KeyInput { code: KeyCode::Char(c), control: false }
}

fn item(name: &str) -> TaskItem {
    TaskItem {
        name: name.to_string(),
        status: TaskStatus::Pending,
        current_step: 0,
        total_steps: 1,
        step_name: "--".to_string(),
        blocked_by: vec![],
        message: None,
    }
}

fn ok(stdout: &str) -> CommandResult {
    CommandResult { stdout: stdout.to_string(), stderr: String::new(), exit_code: 0, success: true }
}

#[test]
fn tmux_commands() {
    assert_eq!(
        send_keys_command("s", "w", "echo 'hi'"),
        "tmux send-keys -t 's:w' 'echo '\\''hi'\\''' && tmux send-keys -t 's:w' Enter"
    );
    assert_eq!(create_session_command("s", Some("/d")), "tmux new-session -d -s 's' -c '/d'");
    assert_eq!(create_session_command("s", None), "tmux new-session -d -s 's'");
    assert_eq!(capture_pane_command("s", "w", 100), "tmux capture-pane -t 's:w' -p -J -S -100");
    assert_eq!(capture_pane(true, ok("x")), CaptureResult::Content("x".to_string()));
    assert_eq!(capture_pane(false, ok("x")), CaptureResult::WindowGone);
    assert!(pane_is_active(&Some(ok("vim\n"))));
    assert!(!pane_is_active(&Some(ok(" zsh \n"))));
    assert!(!pane_is_active(&None));
    assert_eq!(output_value(&Some(ok(" 123\n"))), Some("123".to_string()));
    assert_eq!(output_value(&Some(ok("  "))), None);
}

#[test]
fn session_id_lookup_stages() {
    assert_eq!(extract_session_id("s", "w", false, None, None), SessionIdStep::Done(None));
    assert_eq!(
        extract_session_id("s", "w", true, None, None),
        SessionIdStep::Run("tmux list-panes -t 's:w' -F '#{pane_pid}' 2>/dev/null".to_string())
    );
    let pid = Some(ok("42\n"));
    match extract_session_id("s", "w", true, Some(&pid), None) {
        SessionIdStep::Run(c) => assert!(c.starts_with("cat /proc/42/environ")),
        other => panic!("unexpected {:?}", other),
    }
    let env = Some(ok("abc\n"));
    assert_eq!(
        extract_session_id("s", "w", true, Some(&pid), Some(&env)),
        SessionIdStep::Done(Some("abc".to_string()))
    );
}

#[test]
fn viewports() {
    let vp = create_viewport("tmux", "proj").unwrap();
    assert_eq!(vp.execute_command("t", "\x03"), "tmux send-keys -t 'proj:t' C-c");
    assert_eq!(
        vp.open_commands("t", "/p", false, true),
        vec!["tmux new-session -d -s 'proj' -c '/p'".to_string()]
    );
    assert_eq!(
        vp.open_commands("t", "/p", true, false),
        vec!["tmux new-window -d -t 'proj' -n 't' -c '/p'".to_string()]
    );
    assert_eq!(vp.close_command("t", false), None);
    assert_eq!(
        create_viewport("screen", "p").unwrap_err(),
        PawlError::Validation { message: "Unsupported viewport backend: screen".to_string() }
    );
}

#[test]
fn keys_map_to_actions() {
    let state = AppState::with_tasks(vec![item("a"), item("b")]);
    assert_eq!(handle_key_event(&key('j'), &state), Some(Action::SelectNext));
    assert_eq!(handle_key_event(&key('s'), &state), Some(Action::StartTask("a".to_string())));
    assert_eq!(
        handle_key_event(&KeyInput { code: KeyCode::Char('c'), control: true }, &state),
        Some(Action::Quit)
    );
    match handle_key_event(&key('R'), &state) {
        Some(Action::ShowConfirm { title, message, on_confirm }) => {
            assert_eq!(title, "Reset Task");
            assert_eq!(message, "Reset task 'a'? All progress will be lost.");
            assert_eq!(*on_confirm, Action::ResetTask("a".to_string()));
        }
        other => panic!("unexpected {:?}", other),
    }
    let empty = AppState::new();
    assert_eq!(handle_key_event(&key('s'), &empty), None);
    assert_eq!(handle_key_event(&KeyInput { code: KeyCode::Enter, control: false }, &empty), None);

    let detail = reduce(state, Action::Enter);
    assert_eq!(detail.view, ViewMode::TaskDetail("a".to_string()));
    assert_eq!(
        handle_key_event(&KeyInput { code: KeyCode::Enter, control: false }, &detail),
        Some(Action::SwitchToTmux("a".to_string()))
    );
    let help = reduce(detail, Action::ShowHelp);
    assert_eq!(handle_key_event(&KeyInput { code: KeyCode::Esc, control: false }, &help), Some(Action::HideModal));
    assert_eq!(handle_key_event(&key('j'), &help), None);
}

#[test]
fn confirmed_actions_run_after_the_dialog_closes() {
    let state = AppState::with_tasks(vec![item("a")]);
    let state = reduce(
        state,
        Action::ShowConfirm {
            title: "Stop Task".to_string(),
            message: "Stop task 'a'?".to_string(),
            on_confirm: Box::new(Action::StopTask("a".to_string())),
        },
    );
    assert!(matches!(state.modal, Some(ModalState::Confirm { .. })));
    let (state, effect) = handle_action(state, Action::ConfirmYes);
    assert!(state.modal.is_none());
    assert_eq!(effect, Effect::Execute(TaskAction::Stop("a".to_string())));

    let (state, effect) = handle_action(state, Action::Enter);
    assert_eq!(effect, Effect::LoadDetail("a".to_string()));
    let (_, effect) = handle_action(state, Action::Refresh);
    assert_eq!(effect, Effect::Refresh);
}

#[test]
fn results_enter_the_state() {
    let state = AppState::with_tasks(vec![item("a"), item("b")]);
    let state = reduce(state, Action::SelectNext);
    let (state, reload) = apply_tasks_loaded(state, Ok(vec![item("x")]));
    assert_eq!(state.task_list.selected, 0);
    assert_eq!(reload, None);
    let (state, _) = apply_tasks_loaded(state, Err("disk".to_string()));
    let msg = state.status_message.as_ref().unwrap();
    assert_eq!(msg.text, "Load error: disk");
    assert!(msg.is_error);

    let (state, refresh) = apply_action_result(state, &TaskAction::Done("x".to_string()), Ok(()));
    assert!(refresh);
    assert_eq!(state.status_message.as_ref().unwrap().text, "Marked done");
    let (state, refresh) = apply_action_result(state, &TaskAction::Start("x".to_string()), Err("busy".to_string()));
    assert!(!refresh);
    assert_eq!(state.status_message.as_ref().unwrap().text, "Started: busy");

    let state = reduce(state, Action::SwitchToTmux("x".to_string()));
    let state = apply_capture(state, Ok(TmuxCaptureResult { content: "a\nb".to_string(), window_exists: true }));
    let tmux = state.tmux_view.as_ref().unwrap();
    assert_eq!(tmux.content, "a\nb");
    assert!(tmux.window_exists);
}
