use std::collections::HashMap;

use pawl::cmd::control::{check_step_reset, check_stop, reset_interrupts_viewport};
use pawl::cmd::done::{done_action, is_retrying, DoneAction};
use pawl::cmd::run::{runner_start, viewport_record, RunnerStart};
use pawl::cmd::start::{
    check_dependencies_done, check_start, combine, decide, derive_fail_policy, finished_event,
    follow_up_event, next_step_action, verify_plan, verify_result, FailPolicy, Outcome, StartPlan,
    StepAction, StepRecord, Verdict, VerifyPlan, VerifyResult,
};
use pawl::error::PawlError;
use pawl::model::config::Step;
use pawl::model::event::{Event, Timestamp};
use pawl::model::state::{TaskState, TaskStatus};

#[test]
fn test_decide_advance() {
    assert_eq!(decide(Outcome::Success, FailPolicy::Terminal), Verdict::Advance);
}

#[test]
fn test_decide_yield_verify_manual() {
    assert_eq!(
        decide(Outcome::ManualNeeded, FailPolicy::Terminal),
        Verdict::Yield { reason: "verify_manual" }
    );
}

#[test]
fn test_decide_failure_terminal() {
    assert_eq!(
        decide(Outcome::Failure { feedback: "bad".into() }, FailPolicy::Terminal),
        Verdict::Fail
    );
}

#[test]
fn test_decide_failure_retry_under_limit() {
    assert_eq!(
        decide(Outcome::Failure { feedback: "bad".into() }, FailPolicy::Retry { can_retry: true }),
        Verdict::Retry
    );
}

#[test]
fn test_decide_failure_retry_at_limit() {
    assert_eq!(
        decide(Outcome::Failure { feedback: "bad".into() }, FailPolicy::Retry { can_retry: false }),
        Verdict::Fail
    );
}

#[test]
fn test_decide_failure_manual() {
    assert_eq!(
        decide(Outcome::Failure { feedback: "bad".into() }, FailPolicy::Manual),
        Verdict::Yield { reason: "on_fail_manual" }
    );
}

fn ts() -> Timestamp {
    Timestamp { secs: 1_700_000_000, nanos: 0 }
}

fn step(name: &str, run: Option<&str>) -> Step {
    Step {
        name: name.to_string(),
        run: run.map(|r| r.to_string()),
        in_viewport: false,
        verify: None,
        on_fail: None,
        max_retries: None,
    }
}

fn state(status: TaskStatus, current_step: usize) -> TaskState {
    TaskState {
        current_step,
        status,
        started_at: Some(ts()),
        updated_at: Some(ts()),
        step_status: HashMap::new(),
        message: None,
        run_id: "run-1".to_string(),
    }
}

#[test]
fn retry_policy_counts_automatic_resets() {
    let mut s = step("test", Some("npm test"));
    s.on_fail = Some("retry".to_string());
    s.max_retries = Some(2);
    let mut log = vec![Event::TaskStarted { ts: ts(), run_id: "r".to_string() }];
    assert_eq!(derive_fail_policy(&s, &log, 0), FailPolicy::Retry { can_retry: true });
    log.push(Event::StepReset { ts: ts(), step: 0, auto: true });
    log.push(Event::StepReset { ts: ts(), step: 0, auto: true });
    assert_eq!(derive_fail_policy(&s, &log, 0), FailPolicy::Retry { can_retry: false });
    // A manual reset of the step starts the count again.
    log.push(Event::StepReset { ts: ts(), step: 0, auto: false });
    assert_eq!(derive_fail_policy(&s, &log, 0), FailPolicy::Retry { can_retry: true });

    s.on_fail = Some("manual".to_string());
    assert_eq!(derive_fail_policy(&s, &log, 0), FailPolicy::Manual);
    s.on_fail = None;
    assert_eq!(derive_fail_policy(&s, &log, 0), FailPolicy::Terminal);
}

#[test]
fn default_retry_limit_is_three() {
    let mut s = step("test", Some("x"));
    s.on_fail = Some("retry".to_string());
    let mut log = vec![Event::TaskStarted { ts: ts(), run_id: "r".to_string() }];
    for _ in 0..3 {
        assert_eq!(derive_fail_policy(&s, &log, 0), FailPolicy::Retry { can_retry: true });
        log.push(Event::StepReset { ts: ts(), step: 0, auto: true });
    }
    assert_eq!(derive_fail_policy(&s, &log, 0), FailPolicy::Retry { can_retry: false });
}

#[test]
fn verification_results_and_combination() {
    let mut s = step("check", Some("x"));
    assert_eq!(verify_plan(&s), VerifyPlan::Pass);
    s.verify = Some("manual".to_string());
    assert_eq!(verify_plan(&s), VerifyPlan::Manual);
    s.verify = Some("cargo test".to_string());
    assert_eq!(verify_plan(&s), VerifyPlan::Command("cargo test".to_string()));

    assert_eq!(verify_result(true, "out", "err"), VerifyResult::Passed);
    assert_eq!(
        verify_result(false, "out", "err"),
        VerifyResult::Failed { feedback: "out\nerr".to_string() }
    );
    assert_eq!(verify_result(false, "", "err"), VerifyResult::Failed { feedback: "err".to_string() });

    let (o, vo) = combine(3, None);
    assert_eq!(o, Outcome::Failure { feedback: "Exit code: 3".to_string() });
    assert_eq!(vo, None);
    let (o, vo) = combine(0, Some(VerifyResult::Passed));
    assert_eq!((o, vo), (Outcome::Success, None));
    let (o, vo) = combine(0, Some(VerifyResult::Failed { feedback: "f".to_string() }));
    assert_eq!(o, Outcome::Failure { feedback: "f".to_string() });
    assert_eq!(vo, Some("f".to_string()));
}

#[test]
fn recording_then_routing() {
    let record = StepRecord { exit_code: 1, duration: None, stdout: Some("o".to_string()), stderr: None };
    let e = finished_event(ts(), 2, record, &Verdict::Retry, Some("v".to_string()));
    match e {
        Event::StepFinished { step, success, exit_code, stdout, verify_output, .. } => {
            assert_eq!(step, 2);
            assert!(!success);
            assert_eq!(exit_code, 1);
            assert_eq!(stdout, Some("o".to_string()));
            assert_eq!(verify_output, Some("v".to_string()));
        }
        _ => panic!("expected a finished step"),
    }
    let manual = StepRecord { exit_code: 0, duration: None, stdout: None, stderr: None };
    match finished_event(ts(), 0, manual, &Verdict::Yield { reason: "verify_manual" }, None) {
        Event::StepFinished { success, .. } => assert!(success),
        _ => panic!("expected a finished step"),
    }
    assert!(matches!(
        follow_up_event(ts(), 2, &Verdict::Retry),
        Some(Event::StepReset { step: 2, auto: true, .. })
    ));
    match follow_up_event(ts(), 1, &Verdict::Yield { reason: "on_fail_manual" }) {
        Some(Event::StepYielded { step, reason, .. }) => {
            assert_eq!(step, 1);
            assert_eq!(reason, "on_fail_manual");
        }
        _ => panic!("expected a yield"),
    }
    assert!(follow_up_event(ts(), 0, &Verdict::Advance).is_none());
    assert!(follow_up_event(ts(), 0, &Verdict::Fail).is_none());
}

#[test]
fn step_loop_actions() {
    let mut viewport = step("agent", Some("agent-cli"));
    viewport.in_viewport = true;
    let workflow = vec![step("setup", Some("make")), step("gate", None), viewport, step("cleanup", Some("rm"))];
    let skip = vec!["cleanup".to_string()];
    assert_eq!(next_step_action(&state(TaskStatus::Running, 0), &workflow, &skip), StepAction::Run(0));
    assert_eq!(next_step_action(&state(TaskStatus::Running, 1), &workflow, &skip), StepAction::Gate(1));
    assert_eq!(next_step_action(&state(TaskStatus::Running, 2), &workflow, &skip), StepAction::Viewport(2));
    assert_eq!(next_step_action(&state(TaskStatus::Running, 3), &workflow, &skip), StepAction::Skip(3));
    assert_eq!(next_step_action(&state(TaskStatus::Running, 4), &workflow, &skip), StepAction::Complete);
}

#[test]
fn start_preconditions() {
    assert_eq!(check_start("t", &None, false, "x"), Ok(StartPlan::Fresh));
    assert_eq!(check_start("t", &Some(state(TaskStatus::Failed, 1)), true, "x"), Ok(StartPlan::ResetFirst));
    assert_eq!(check_start("t", &Some(state(TaskStatus::Stopped, 1)), false, "x"), Ok(StartPlan::Fresh));
    match check_start("t", &Some(state(TaskStatus::Completed, 3)), false, "done") {
        Err(PawlError::StateConflict { task, status, message }) => {
            assert_eq!(task, "t");
            assert_eq!(status, "completed");
            assert_eq!(message, "use 'pawl reset t' to restart or 'pawl start --reset t'");
        }
        other => panic!("unexpected {:?}", other),
    }
    assert!(matches!(
        check_start("t", &Some(state(TaskStatus::Running, 0)), false, "x"),
        Err(PawlError::StateConflict { .. })
    ));
    assert_eq!(check_dependencies_done("t", &vec![]), Ok(()));
    assert_eq!(
        check_dependencies_done("t", &vec!["a".to_string(), "b".to_string()]),
        Err(PawlError::Precondition {
            message: "Task 't' is blocked by incomplete dependencies: a, b".to_string()
        })
    );
}

#[test]
fn stop_and_reset_preconditions() {
    assert_eq!(check_stop("t", &Some(state(TaskStatus::Running, 2))), Ok(2));
    assert_eq!(check_stop("t", &Some(state(TaskStatus::Waiting, 1))), Ok(1));
    assert_eq!(
        check_stop("t", &None),
        Err(PawlError::StateConflict {
            task: "t".to_string(),
            status: "pending".to_string(),
            message: "not started. Use 'pawl start t' to begin".to_string(),
        })
    );
    assert_eq!(
        check_stop("t", &Some(state(TaskStatus::Failed, 0))),
        Err(PawlError::StateConflict {
            task: "t".to_string(),
            status: "failed".to_string(),
            message: "not running".to_string(),
        })
    );
    assert_eq!(check_step_reset("t", &Some(state(TaskStatus::Failed, 1)), 3), Ok(1));
    assert_eq!(
        check_step_reset("t", &Some(state(TaskStatus::Running, 1)), 3),
        Err(PawlError::StateConflict {
            task: "t".to_string(),
            status: "running".to_string(),
            message: "already running".to_string(),
        })
    );
    assert_eq!(
        check_step_reset("t", &Some(state(TaskStatus::Failed, 3)), 3),
        Err(PawlError::StateConflict {
            task: "t".to_string(),
            status: "completed".to_string(),
            message: "use 'pawl reset t' for full reset".to_string(),
        })
    );
    assert!(reset_interrupts_viewport(&Some(state(TaskStatus::Running, 0))));
    assert!(!reset_interrupts_viewport(&Some(state(TaskStatus::Waiting, 0))));
    assert!(!reset_interrupts_viewport(&None));
}

#[test]
fn done_settles_or_approves() {
    assert_eq!(done_action("t", &Some(state(TaskStatus::Running, 2))), Ok(DoneAction::Settle(2)));
    assert_eq!(done_action("t", &Some(state(TaskStatus::Waiting, 1))), Ok(DoneAction::Approve(1)));
    assert_eq!(
        done_action("t", &None),
        Err("Task 't' has not been started. Use 'pawl start t' to begin.".to_string())
    );
    assert_eq!(
        done_action("t", &Some(state(TaskStatus::Completed, 3))),
        Err("Task 't' is completed. Cannot mark as done.".to_string())
    );
    assert!(is_retrying(&Some(state(TaskStatus::Running, 2)), 2));
    assert!(!is_retrying(&Some(state(TaskStatus::Running, 3)), 2));
}

#[test]
fn viewport_runner_decisions() {
    let workflow = vec![step("agent", Some("run-agent")), step("gate", None)];
    assert_eq!(
        runner_start(&Some(state(TaskStatus::Running, 0)), 0, &workflow),
        RunnerStart::Run("run-agent".to_string())
    );
    assert_eq!(runner_start(&Some(state(TaskStatus::Waiting, 0)), 0, &workflow), RunnerStart::Quit);
    assert_eq!(runner_start(&Some(state(TaskStatus::Running, 1)), 0, &workflow), RunnerStart::Quit);
    assert_eq!(runner_start(&None, 0, &workflow), RunnerStart::Quit);
    assert_eq!(
        runner_start(&Some(state(TaskStatus::Running, 1)), 1, &workflow),
        RunnerStart::Fail("Step 1 has no run command".to_string())
    );
    assert_eq!(viewport_record(Some(3)).exit_code, 3);
    assert_eq!(viewport_record(None).exit_code, 128);
}
