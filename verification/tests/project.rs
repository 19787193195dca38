use std::collections::HashMap;

use indexmap::IndexMap;
use pawl::cmd::common::{blocking_of, extract_step_context, resolve_task_name, viewport_step_to_watch, Project};
use pawl::cmd::serve::{newest_entries, EventEntry};
use pawl::cmd::status::derive_routing;
use pawl::error::PawlError;
use pawl::model::config::{config_warnings, Config, Step, TaskConfig};
use pawl::model::event::{Event, Timestamp};
use pawl::model::state::{StepStatus, TaskState, TaskStatus};
use pawl::tui::data::live::LiveDataProvider;
use pawl::tui::state::task_detail::{StepItemStatus, StepType};

fn ts(secs: i64) -> Timestamp {
    Timestamp { secs, nanos: 0 }
}

fn step(name: &str, run: Option<&str>) -> Step {
    Step {
        name: name.to_string(),
        run: run.map(|r| r.to_string()),
        in_viewport: false,
        verify: None,
        on_fail: None,
        max_retries: None,
    }
}

fn config(tasks: &[(&str, &[&str])], steps: Vec<Step>) -> Config {
    let mut t = IndexMap::new();
    for (name, deps) in tasks {
        t.insert(
            name.to_string(),
            TaskConfig {
                description: Some(format!("about {}", name)),
                depends: deps.iter().map(|d| d.to_string()).collect(),
                skip: vec![],
            },
        );
    }
    let mut vars = IndexMap::new();
    vars.insert("branch".to_string(), "pawl/${task}".to_string());
    vars.insert("worktree".to_string(), "${project_root}/wt/${branch}".to_string());
    let mut on = HashMap::new();
    on.insert("step_finished".to_string(), "notify ${task} ${exit_code} ${retry_count}".to_string());
    Config {
        session: None,
        viewport: "tmux".to_string(),
        vars,
        tasks: t,
        workflow: steps,
        on,
    }
}

fn project() -> Project {
    let build = config(&[("lib", &[]), ("api", &["lib"])], vec![step("build", Some("make")), step("gate", None)]);
    let ship = config(&[("ship", &["api", "lib"])], vec![step("deploy", Some("make deploy"))]);
    Project::from_workflows(
        "/home/u/proj".to_string(),
        "/home/u/proj/.pawl".to_string(),
        vec![("build".to_string(), build), ("ship".to_string(), ship)],
    )
    .unwrap()
}

fn started(current_step: usize, status: TaskStatus) -> TaskState {
    TaskState {
        current_step,
        status,
        started_at: Some(ts(0)),
        updated_at: Some(ts(60)),
        step_status: HashMap::new(),
        message: None,
        run_id: "r1".to_string(),
    }
}

#[test]
fn duplicate_task_names_are_refused() {
    let a = config(&[("x", &[])], vec![step("s", Some("true"))]);
    let b = config(&[("x", &[])], vec![step("s", Some("true"))]);
    let r = Project::from_workflows(
        "/p".to_string(),
        "/p/.pawl".to_string(),
        vec![("a".to_string(), a), ("b".to_string(), b)],
    );
    match r {
        Err(PawlError::Validation { message }) => assert_eq!(
            message,
            "Task 'x' declared in both 'a' and 'b' workflows. Task names must be globally unique."
        ),
        other => panic!("unexpected {:?}", other.map(|_| ())),
    }
    let none = Project::from_workflows("/p".to_string(), "/p/.pawl".to_string(), vec![]);
    assert!(matches!(none, Err(PawlError::NotFound { .. })));
}

#[test]
fn the_first_repeated_name_is_reported_with_its_first_workflow() {
    let a = || config(&[("x", &[]), ("y", &[])], vec![step("s", Some("true"))]);
    let b = || config(&[("z", &[])], vec![step("s", Some("true"))]);
    let c = config(&[("y", &[]), ("x", &[])], vec![step("s", Some("true"))]);
    let unnamed = config(&[("x", &[])], vec![step("s", Some("true"))]);
    let r = Project::from_workflows(
        "/p".to_string(),
        "/p/.pawl".to_string(),
        vec![("a".to_string(), a()), ("b".to_string(), b()), ("c".to_string(), c)],
    );
    match r {
        Err(PawlError::Validation { message }) => assert_eq!(
            message,
            "Task 'y' declared in both 'a' and 'c' workflows. Task names must be globally unique."
        ),
        other => panic!("unexpected {:?}", other.map(|_| ())),
    }
    // A workflow without a name is left out, so its tasks clash with nothing.
    let ok = Project::from_workflows(
        "/p".to_string(),
        "/p/.pawl".to_string(),
        vec![("a".to_string(), a()), ("".to_string(), unnamed), ("b".to_string(), b())],
    );
    assert!(ok.is_ok());
    let only_unnamed = Project::from_workflows(
        "/p".to_string(),
        "/p/.pawl".to_string(),
        vec![("".to_string(), config(&[("x", &[])], vec![]))],
    );
    assert!(matches!(only_unnamed, Err(PawlError::NotFound { .. })));
}

#[test]
fn tasks_run_under_the_workflow_that_declares_them() {
    let p = project();
    assert_eq!(p.workflow_for("api").unwrap().0, "build");
    assert_eq!(p.workflow_for("ship").unwrap().0, "ship");
    match p.workflow_for("adhoc") {
        Err(PawlError::NotFound { message }) => assert_eq!(
            message,
            "Task 'adhoc' not declared in any workflow. With multiple workflows, all tasks must be declared."
        ),
        _ => panic!("expected not found"),
    }
    assert_eq!(p.step_name("api", 1), "gate");
    assert_eq!(p.step_name("api", 2), "done");
    assert_eq!(p.step_name("adhoc", 0), "done");
    assert_eq!(p.task_config("ship").unwrap().depends, vec!["api".to_string(), "lib".to_string()]);
    assert!(p.task_config("adhoc").is_none());
    assert_eq!(p.session_name_for("api").unwrap(), "proj");
    assert_eq!(p.log_file("api"), "/home/u/proj/.pawl/logs/api.jsonl");
    assert_eq!(p.stream_file("api"), "/home/u/proj/.pawl/streams/api.stream");
}

#[test]
fn single_workflow_takes_undeclared_tasks() {
    let only = config(&[("a", &[])], vec![step("s", Some("true"))]);
    let p = Project::from_workflows("/x/y".to_string(), "/x/y/.pawl".to_string(), vec![("main".to_string(), only)])
        .unwrap();
    assert_eq!(p.workflow_for("other").unwrap().0, "main");
}

#[test]
fn context_expands_user_variables_in_order() {
    let p = project();
    let ctx = p.context_for("api", Some(0), "r1");
    assert_eq!(ctx.get("branch"), Some("pawl/api"));
    assert_eq!(ctx.get("worktree"), Some("/home/u/proj/wt/pawl/api"));
    assert_eq!(ctx.get("step"), Some("build"));
    assert_eq!(ctx.get("step_index"), Some("0"));
    assert_eq!(ctx.get("session"), Some("proj"));
    assert_eq!(ctx.get("log_file"), Some("/home/u/proj/.pawl/logs/api.jsonl"));
    let ctx = p.context_for("api", None, "r1");
    assert_eq!(ctx.get("step"), Some(""));
    assert_eq!(ctx.get("step_index"), Some(""));
}

#[test]
fn hooks_fire_with_event_variables() {
    let p = project();
    let events = vec![
        Event::TaskStarted { ts: ts(0), run_id: "r1".to_string() },
        Event::StepReset { ts: ts(1), step: 0, auto: true },
    ];
    let fin = Event::StepFinished {
        ts: ts(2),
        step: 0,
        success: false,
        exit_code: 2,
        duration: None,
        stdout: None,
        stderr: None,
        verify_output: None,
    };
    assert_eq!(p.hook_command("api", &fin, "r1", &events, None), Some("notify api 2 1".to_string()));
    let started = Event::TaskStarted { ts: ts(0), run_id: "r1".to_string() };
    assert_eq!(p.hook_command("api", &started, "r1", &events, None), None);
}

#[test]
fn discovered_tasks_are_sorted_and_unique() {
    let p = project();
    let stems = vec!["zeta".to_string(), "api".to_string(), "alpha".to_string()];
    assert_eq!(p.discover_tasks(&stems), vec!["alpha", "api", "lib", "ship", "zeta"]);
    let tasks = p.discover_tasks(&vec![]);
    assert_eq!(resolve_task_name("2", &tasks).unwrap(), "lib");
    assert_eq!(resolve_task_name("+1", &tasks).unwrap(), "api");
    assert_eq!(resolve_task_name("lib", &tasks).unwrap(), "lib");
    assert_eq!(
        resolve_task_name("9", &tasks),
        Err(PawlError::NotFound { message: "Task index 9 out of range. Have 3 tasks.".to_string() })
    );
    assert!(resolve_task_name("0", &tasks).is_err());
    assert_eq!(resolve_task_name("99999999999999999999999", &tasks).unwrap(), "99999999999999999999999");
}

#[test]
fn blocking_dependencies() {
    let deps = vec!["a".to_string(), "b".to_string(), "c".to_string()];
    let st = vec![Some(TaskStatus::Completed), None, Some(TaskStatus::Running)];
    assert_eq!(blocking_of(&deps, &st), vec!["b", "c"]);
    let done = vec![Some(TaskStatus::Completed); 3];
    assert!(blocking_of(&deps, &done).is_empty());
}

#[test]
fn step_context_gives_retries_and_latest_feedback() {
    let events = vec![
        Event::TaskStarted { ts: ts(0), run_id: "r".to_string() },
        Event::StepFinished {
            ts: ts(1),
            step: 1,
            success: false,
            exit_code: 1,
            duration: None,
            stdout: Some("first".to_string()),
            stderr: None,
            verify_output: None,
        },
        Event::StepReset { ts: ts(2), step: 1, auto: true },
        Event::StepFinished {
            ts: ts(3),
            step: 1,
            success: false,
            exit_code: 1,
            duration: None,
            stdout: Some("out".to_string()),
            stderr: Some("err".to_string()),
            verify_output: Some("verify".to_string()),
        },
        Event::StepReset { ts: ts(4), step: 1, auto: true },
    ];
    assert_eq!(extract_step_context(&events, 1), (2, Some("verify\nout\nerr".to_string())));
    assert_eq!(extract_step_context(&events, 0), (0, None));
    let mut more = events.clone();
    more.push(Event::StepReset { ts: ts(5), step: 1, auto: false });
    assert_eq!(extract_step_context(&more, 1), (0, None));
}

#[test]
fn status_routing_hints() {
    assert_eq!(derive_routing("pending", None, "t"), (vec!["pawl start t".to_string()], None));
    assert_eq!(
        derive_routing("waiting", Some("gate"), "t"),
        (vec![], Some("confirm preconditions, then: pawl done t".to_string()))
    );
    assert_eq!(
        derive_routing("waiting", Some("verify_manual"), "t"),
        (vec![], Some("verify work quality, then: pawl done t".to_string()))
    );
    assert_eq!(
        derive_routing("waiting", Some("on_fail_manual"), "t"),
        (
            vec!["pawl reset --step t".to_string()],
            Some("review failure, then: pawl done t to accept".to_string())
        )
    );
    assert_eq!(derive_routing("failed", None, "t"), (vec!["pawl reset --step t".to_string()], None));
    assert_eq!(
        derive_routing("stopped", None, "t"),
        (vec!["pawl start t".to_string(), "pawl reset t".to_string()], None)
    );
    assert_eq!(derive_routing("completed", None, "t"), (vec![], None));
}

#[test]
fn summary_and_detail() {
    let p = project();
    let mut st = started(1, TaskStatus::Waiting);
    st.message = Some("gate".to_string());
    st.step_status.insert(0, StepStatus::Success);
    let s = p.task_summary("api", &Some(st), vec![], &[]);
    assert_eq!(s.status, "waiting");
    assert_eq!(s.step_name, "gate");
    assert_eq!(s.total_steps, 2);
    assert_eq!(s.description, Some("about api".to_string()));
    assert_eq!(s.started_at, Some("1970-01-01T00:00:00+00:00".to_string()));
    assert_eq!(s.prompt, Some("confirm preconditions, then: pawl done api".to_string()));

    let fresh = p.task_summary("lib", &None, vec!["x".to_string()], &[]);
    assert_eq!(fresh.status, "pending");
    assert_eq!(fresh.step_name, "--");
    assert_eq!(fresh.suggest, vec!["pawl start lib".to_string()]);

    let mut st = started(1, TaskStatus::Running);
    st.step_status.insert(0, StepStatus::Skipped);
    let d = p.task_detail("api", &Some(st), &[]);
    assert_eq!(d.depends, vec!["lib".to_string()]);
    assert_eq!(d.workflow.len(), 2);
    assert_eq!(d.workflow[0].status, "skipped");
    assert_eq!(d.workflow[1].status, "current");
    assert_eq!(d.workflow[1].step_type, Some("gate".to_string()));
    assert_eq!(d.workflow[0].step_type, None);
}

#[test]
fn dashboard_items_and_detail() {
    let live = LiveDataProvider::new(project());
    let item = live.task_item("api", &Some(started(2, TaskStatus::Completed)), vec![]);
    assert_eq!(item.step_name, "Done");
    let item = live.task_item("api", &None, vec!["lib".to_string()]);
    assert_eq!(item.step_name, "--");
    assert_eq!(item.blocked_by, vec!["lib".to_string()]);
    let mut st = started(1, TaskStatus::Running);
    st.step_status.insert(0, StepStatus::Failed);
    let d = live.task_detail("api", &Some(st));
    assert_eq!(d.description, "about api");
    assert_eq!(d.steps[0].status, StepItemStatus::Failed);
    assert_eq!(d.steps[1].status, StepItemStatus::Current);
    assert_eq!(d.steps[1].step_type, StepType::Checkpoint);
    assert_eq!(d.steps[0].step_type, StepType::Normal);
}

#[test]
fn workflow_warnings() {
    let mut gate = step("g", None);
    gate.verify = Some("manual".to_string());
    let mut vp = step("v", Some("agent"));
    vp.in_viewport = true;
    let mut vp2 = step("w", Some("agent"));
    vp2.in_viewport = true;
    vp2.verify = Some("test".to_string());
    let w = config_warnings(&vec![gate, vp, vp2, step("ok", Some("true"))]);
    assert_eq!(w.len(), 3);
    assert_eq!(
        w[0],
        "Warning: step 'g' has verify/on_fail but no run command \u{2014} it will be treated as a gate step."
    );
    assert!(w[1].starts_with("Warning: step 'v' (in_viewport) has no verify"));
    assert!(w[2].ends_with("has verify but no on_fail \u{2014} verify failure is terminal."));
}

fn entry(ts_ms: i64, task: &str) -> EventEntry {
    EventEntry {
        ts: String::new(),
        ts_ms,
        task: task.to_string(),
        event_type: "step_finished".to_string(),
        step_name: None,
        detail: String::new(),
    }
}

#[test]
fn event_list_is_newest_first_and_stable() {
    let entries = vec![entry(5, "a"), entry(9, "b"), entry(5, "c"), entry(1, "d")];
    let r = newest_entries(entries, 3);
    let names: Vec<&str> = r.iter().map(|e| e.task.as_str()).collect();
    assert_eq!(names, vec!["b", "a", "c"]);
}

#[test]
fn event_entries_filter_by_time() {
    let p = project();
    let events = vec![
        Event::TaskStarted { ts: Timestamp { secs: 1, nanos: 500_000_000 }, run_id: "r".to_string() },
        Event::StepYielded { ts: ts(3), step: 1, reason: "gate".to_string() },
    ];
    let all = p.event_entries("api", &events, None);
    assert_eq!(all.len(), 2);
    assert_eq!(all[0].ts_ms, 1500);
    assert_eq!(all[1].step_name, Some("gate".to_string()));
    assert_eq!(all[1].detail, "gate");
    let later = p.event_entries("api", &events, Some(ts(2)));
    assert_eq!(later.len(), 1);
    assert_eq!(later[0].event_type, "step_yielded");
}

#[test]
fn viewport_is_watched_only_while_its_step_runs() {
    let mut agent = step("agent", Some("agent --task"));
    agent.in_viewport = true;
    let workflow = vec![step("build", Some("make")), agent];
    assert_eq!(viewport_step_to_watch(&Some(started(1, TaskStatus::Running)), &workflow), Some(1));
    assert_eq!(viewport_step_to_watch(&Some(started(0, TaskStatus::Running)), &workflow), None);
    assert_eq!(viewport_step_to_watch(&Some(started(1, TaskStatus::Waiting)), &workflow), None);
    assert_eq!(viewport_step_to_watch(&Some(started(2, TaskStatus::Running)), &workflow), None);
    assert_eq!(viewport_step_to_watch(&None, &workflow), None);
}

#[test]
fn reports_give_state_step_and_retry_context() {
    let p = project();
    let events = vec![
        Event::TaskStarted { ts: ts(0), run_id: "r1".to_string() },
        Event::StepFinished {
            ts: ts(1),
            step: 0,
            success: false,
            exit_code: 2,
            duration: None,
            stdout: None,
            stderr: Some("boom".to_string()),
            verify_output: None,
        },
        Event::StepReset { ts: ts(2), step: 0, auto: true },
    ];
    let r = p.task_report("api", &Some(started(0, TaskStatus::Running)), &events);
    assert_eq!(r.name, "api");
    assert_eq!(r.status, "running");
    assert_eq!(r.run_id, "r1");
    assert_eq!(r.current_step, 0);
    assert_eq!(r.step_name, "build");
    assert_eq!(r.total_steps, 2);
    assert_eq!(r.retry_count, 1);
    assert_eq!(r.last_feedback, Some("boom".to_string()));

    let fresh = p.task_report("ship", &None, &[]);
    assert_eq!(fresh.status, "pending");
    assert_eq!(fresh.run_id, "");
    assert_eq!(fresh.current_step, 0);
    assert_eq!(fresh.step_name, "deploy");
    assert_eq!(fresh.total_steps, 1);
    assert_eq!(fresh.message, None);
    assert_eq!(fresh.retry_count, 0);
}
