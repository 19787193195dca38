use pawl::model::event::{count_auto_retries, replay, Event, Timestamp};
use pawl::model::state::{StepStatus, TaskStatus};

fn ts() -> Timestamp {
    Timestamp { secs: 1_700_000_000, nanos: 0 }
}

fn finished(step: usize, success: bool, exit_code: i32) -> Event {
    Event::StepFinished {
        ts: ts(),
        step,
        success,
        exit_code,
        duration: Some(1.0f64.to_bits()),
        stdout: None,
        stderr: None,
        verify_output: None,
    }
}

#[test]
fn test_task_started() {
    let events = vec![Event::TaskStarted { ts: ts(), run_id: String::new() }];
    let state = replay(&events, 3).unwrap();
    assert_eq!(state.status, TaskStatus::Running);
    assert_eq!(state.current_step, 0);
}

#[test]
fn test_step_finished_success() {
    let events = vec![
        Event::TaskStarted { ts: ts(), run_id: String::new() },
        finished(0, true, 0),
    ];
    let state = replay(&events, 3).unwrap();
    assert_eq!(state.current_step, 1);
    assert_eq!(state.status, TaskStatus::Running);
    assert_eq!(state.step_status.get(&0), Some(&StepStatus::Success));
}

#[test]
fn test_step_finished_failure() {
    let events = vec![
        Event::TaskStarted { ts: ts(), run_id: String::new() },
        finished(0, false, 1),
    ];
    let state = replay(&events, 3).unwrap();
    assert_eq!(state.status, TaskStatus::Failed);
    assert_eq!(state.step_status.get(&0), Some(&StepStatus::Failed));
}

#[test]
fn test_step_yielded_resumed() {
    let events = vec![
        Event::TaskStarted { ts: ts(), run_id: String::new() },
        Event::StepYielded { ts: ts(), step: 0, reason: "gate".to_string() },
    ];
    let state = replay(&events, 3).unwrap();
    assert_eq!(state.status, TaskStatus::Waiting);
    assert_eq!(state.message.as_deref(), Some("gate"));

    let mut events2 = events;
    events2.push(Event::StepResumed { ts: ts(), step: 0 });
    let state = replay(&events2, 3).unwrap();
    assert_eq!(state.status, TaskStatus::Running);
    assert_eq!(state.current_step, 1);
}

#[test]
fn test_step_yielded_after_finished_resets_current_step() {
    let events = vec![
        Event::TaskStarted { ts: ts(), run_id: String::new() },
        finished(0, true, 0),
        Event::StepYielded { ts: ts(), step: 0, reason: "verify_human".to_string() },
    ];
    let state = replay(&events, 3).unwrap();
    assert_eq!(state.status, TaskStatus::Waiting);
    assert_eq!(state.current_step, 0);
}

#[test]
fn test_verify_failure_as_step_finished() {
    let events = vec![
        Event::TaskStarted { ts: ts(), run_id: String::new() },
        Event::StepFinished {
            ts: ts(),
            step: 0,
            success: false,
            exit_code: 0,
            duration: Some(2.0f64.to_bits()),
            stdout: None,
            stderr: None,
            verify_output: Some("verify: tests failed".to_string()),
        },
    ];
    let state = replay(&events, 3).unwrap();
    assert_eq!(state.status, TaskStatus::Failed);
    assert_eq!(state.current_step, 0);
    assert_eq!(state.step_status.get(&0), Some(&StepStatus::Failed));
}

#[test]
fn test_verify_failure_then_retry() {
    let events = vec![
        Event::TaskStarted { ts: ts(), run_id: String::new() },
        finished(0, false, 1),
        Event::StepReset { ts: ts(), step: 0, auto: true },
    ];
    let state = replay(&events, 3).unwrap();
    assert_eq!(state.status, TaskStatus::Running);
    assert_eq!(state.current_step, 0);
    assert!(!state.step_status.contains_key(&0));
}

#[test]
fn test_auto_complete() {
    let events = vec![
        Event::TaskStarted { ts: ts(), run_id: String::new() },
        finished(0, true, 0),
    ];
    let state = replay(&events, 1).unwrap();
    assert_eq!(state.status, TaskStatus::Completed);
}

#[test]
fn test_reset_clears_state() {
    let events = vec![
        Event::TaskStarted { ts: ts(), run_id: String::new() },
        finished(0, true, 0),
        Event::TaskReset { ts: ts() },
    ];
    let state = replay(&events, 3);
    assert!(state.is_none());
}

#[test]
fn test_reset_then_restart() {
    let events = vec![
        Event::TaskStarted { ts: ts(), run_id: String::new() },
        finished(0, true, 0),
        Event::TaskReset { ts: ts() },
        Event::TaskStarted { ts: ts(), run_id: String::new() },
    ];
    let state = replay(&events, 3).unwrap();
    assert_eq!(state.current_step, 0);
    assert_eq!(state.status, TaskStatus::Running);
    assert!(state.step_status.is_empty());
}

#[test]
fn test_skip_step() {
    let events = vec![
        Event::TaskStarted { ts: ts(), run_id: String::new() },
        Event::StepSkipped { ts: ts(), step: 0 },
    ];
    let state = replay(&events, 3).unwrap();
    assert_eq!(state.current_step, 1);
    assert_eq!(state.step_status.get(&0), Some(&StepStatus::Skipped));
}

#[test]
fn test_task_stopped() {
    let events = vec![
        Event::TaskStarted { ts: ts(), run_id: String::new() },
        Event::TaskStopped { ts: ts(), step: 0 },
    ];
    let state = replay(&events, 3).unwrap();
    assert_eq!(state.status, TaskStatus::Stopped);
}

#[test]
fn test_step_reset_auto() {
    let events = vec![
        Event::TaskStarted { ts: ts(), run_id: String::new() },
        finished(0, false, 1),
        Event::StepReset { ts: ts(), step: 0, auto: true },
    ];
    let state = replay(&events, 3).unwrap();
    assert_eq!(state.current_step, 0);
    assert_eq!(state.status, TaskStatus::Running);
    assert!(!state.step_status.contains_key(&0));
}

#[test]
fn test_step_reset_manual() {
    let events = vec![
        Event::TaskStarted { ts: ts(), run_id: String::new() },
        finished(0, true, 0),
        Event::StepReset { ts: ts(), step: 0, auto: false },
    ];
    let state = replay(&events, 3).unwrap();
    assert_eq!(state.current_step, 0);
    assert_eq!(state.status, TaskStatus::Running);
}

#[test]
fn test_viewport_lost() {
    let events = vec![
        Event::TaskStarted { ts: ts(), run_id: String::new() },
        Event::ViewportLaunched { ts: ts(), step: 0 },
        Event::ViewportLost { ts: ts(), step: 0 },
    ];
    let state = replay(&events, 3).unwrap();
    assert_eq!(state.status, TaskStatus::Failed);
    assert_eq!(state.step_status.get(&0), Some(&StepStatus::Failed));
    assert_eq!(state.message.as_deref(), Some("viewport lost"));
}

#[test]
fn replay_keeps_timestamps_and_run_id() {
    let t1 = Timestamp { secs: 10, nanos: 5 };
    let t2 = Timestamp { secs: 20, nanos: 7 };
    let events = vec![
        Event::TaskStarted { ts: t1, run_id: "abc".to_string() },
        Event::StepSkipped { ts: t2, step: 0 },
    ];
    let state = replay(&events, 3).unwrap();
    assert_eq!(state.started_at, Some(t1));
    assert_eq!(state.updated_at, Some(t2));
    assert_eq!(state.run_id, "abc");
}

#[test]
fn history_before_a_reset_does_not_matter() {
    let tail = vec![Event::TaskStarted { ts: ts(), run_id: "r2".to_string() }, finished(0, true, 0)];
    let mut full = vec![
        Event::TaskStarted { ts: ts(), run_id: "r1".to_string() },
        finished(0, false, 3),
        Event::TaskReset { ts: ts() },
    ];
    full.extend(tail.clone());
    let a = replay(&full, 2).unwrap();
    let b = replay(&tail, 2).unwrap();
    assert_eq!(a.run_id, b.run_id);
    assert_eq!(a.current_step, b.current_step);
    assert_eq!(a.status, b.status);
    assert_eq!(a.step_status, b.step_status);
}

#[test]
fn events_without_a_start_give_no_state() {
    let events = vec![finished(0, true, 0), Event::StepSkipped { ts: ts(), step: 1 }];
    assert!(replay(&events, 3).is_none());
}

#[test]
fn auto_retries_count_since_last_manual_reset() {
    let events = vec![
        Event::TaskStarted { ts: ts(), run_id: String::new() },
        Event::StepReset { ts: ts(), step: 1, auto: true },
        Event::StepReset { ts: ts(), step: 1, auto: false },
        Event::StepReset { ts: ts(), step: 1, auto: true },
        Event::StepReset { ts: ts(), step: 2, auto: true },
        Event::StepReset { ts: ts(), step: 1, auto: true },
    ];
    assert_eq!(count_auto_retries(&events, 1), 2);
    assert_eq!(count_auto_retries(&events, 2), 1);
    assert_eq!(count_auto_retries(&events, 0), 0);
    let mut more = events.clone();
    more.push(Event::TaskReset { ts: ts() });
    assert_eq!(count_auto_retries(&more, 1), 0);
}

#[test]
fn event_tags_and_steps() {
    let e = finished(4, false, -2);
    assert_eq!(e.type_tag(), "step_finished");
    assert_eq!(e.step_index(), Some(4));
    assert_eq!(Event::TaskReset { ts: ts() }.type_tag(), "task_reset");
    assert_eq!(Event::TaskReset { ts: ts() }.step_index(), None);
    assert_eq!(
        Event::ViewportLaunched { ts: ts(), step: 1 }.type_tag(),
        "viewport_launched"
    );
    let vars = e.extra_vars();
    assert_eq!(
        vars,
        vec![
            ("success".to_string(), "false".to_string()),
            ("exit_code".to_string(), "-2".to_string())
        ]
    );
    let r = Event::StepReset { ts: ts(), step: 0, auto: true }.extra_vars();
    assert_eq!(r, vec![("auto".to_string(), "true".to_string())]);
}

#[test]
fn a_state_exists_exactly_after_a_start_since_the_last_reset() {
    let start = || Event::TaskStarted { ts: ts(), run_id: "r".to_string() };
    let reset = || Event::TaskReset { ts: ts() };
    assert!(replay(&[], 2).is_none());
    assert!(replay(&[reset()], 2).is_none());
    assert!(replay(&[start(), finished(0, true, 0), reset(), Event::StepSkipped { ts: ts(), step: 1 }], 2).is_none());
    assert!(replay(&[reset(), start()], 2).is_some());
    assert!(replay(&[start(), reset(), start(), finished(0, true, 0)], 2).is_some());
    let done = replay(&[start(), finished(0, true, 0), finished(1, true, 0)], 2).unwrap();
    assert_eq!(done.status, TaskStatus::Completed);
}
