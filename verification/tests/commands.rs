use pawl::cmd::create::{generate_task_content, parse_depends};
use pawl::cmd::events::{parse_type_filter, tag_event_line, type_passes};
use pawl::cmd::init::update_gitignore;
use pawl::cmd::log::{current_run_lines, select_log_lines};
use pawl::cmd::serve::{
    build_event_detail, content_type_for, events_since, route, static_path, stream_request, Route,
};
use pawl::cmd::wait::{
    check_round, is_terminal_mismatch, mismatch_error, parse_statuses, timeout_error, WaitRound,
};
use pawl::error::PawlError;
use pawl::model::event::{Event, Timestamp};
use pawl::model::state::TaskStatus;
use pawl::model::task::TaskDefinition;
use pawl::text::{parse_i64, parse_u64, parse_usize};

fn s(v: &[&str]) -> Vec<String> {
    v.iter().map(|x| x.to_string()).collect()
}

#[test]
fn log_keeps_the_current_run() {
    let lines = s(&[
        r#"{"type":"task_started"}"#,
        r#"{"type":"task_reset"}"#,
        r#"{"type":"task_started","run_id":"2"}"#,
        r#"{"type":"step_finished","step":0}"#,
    ]);
    assert_eq!(
        current_run_lines(lines.clone()),
        s(&[r#"{"type":"task_started","run_id":"2"}"#, r#"{"type":"step_finished","step":0}"#])
    );
    let no_reset = s(&["a", "b"]);
    assert_eq!(current_run_lines(no_reset.clone()), no_reset);
    let steps = vec![None, Some(0), Some(1)];
    let run = s(&["start", "s0", "s1"]);
    assert_eq!(select_log_lines(&run, &steps, None, false), s(&["s1"]));
    assert_eq!(select_log_lines(&run, &steps, None, true), run);
    assert_eq!(select_log_lines(&run, &steps, Some(0), false), s(&["s0"]));
    assert!(select_log_lines(&vec![], &vec![], None, false).is_empty());
}

#[test]
fn events_lines_get_their_task() {
    assert_eq!(
        tag_event_line("auth", "  {\"type\":\"task_reset\"}\n"),
        Some("{\"task\":\"auth\",\"type\":\"task_reset\"}".to_string())
    );
    assert_eq!(tag_event_line("auth", "   "), None);
    assert_eq!(tag_event_line("auth", "plain"), Some("plain".to_string()));
    let kinds = Some(parse_type_filter("step_finished, step_yielded,"));
    assert_eq!(kinds, Some(s(&["step_finished", "step_yielded"])));
    assert!(type_passes(&kinds, "step_yielded"));
    assert!(!type_passes(&kinds, "task_started"));
    assert!(type_passes(&None, "task_started"));
}

#[test]
fn new_task_file() {
    let deps = parse_depends(" a, ,b ");
    assert_eq!(deps, s(&["a", "b"]));
    assert_eq!(
        generate_task_content("auth", Some("Add login."), &deps),
        "---\nname: auth\ndepends:\n  - a\n  - b\n# skip:          # skip workflow steps not needed\n#   - cleanup\n---\n\n## Task: auth\n\nAdd login.\n"
    );
    let t = generate_task_content("x", None, &vec![]);
    assert!(t.starts_with("---\nname: x\n# skip:"));
    assert!(t.contains("## Task: x\n\n### Goal\n\n<!-- Describe what to do -->"));
    assert!(t.ends_with("(don't overwrite \u{2014} preserves history) -->\n"));
}

#[test]
fn gitignore_entries() {
    assert_eq!(
        update_gitignore(""),
        Some("# pawl - Resumable Step Sequencer\n.pawl/*\n!.pawl/config.json\n".to_string())
    );
    assert_eq!(
        update_gitignore("target/\n"),
        Some("target/\n\n# pawl - Resumable Step Sequencer\n.pawl/*\n!.pawl/config.json\n".to_string())
    );
    assert_eq!(
        update_gitignore("target/"),
        Some("target/\n\n# pawl - Resumable Step Sequencer\n.pawl/*\n!.pawl/config.json\n".to_string())
    );
    assert_eq!(update_gitignore("x\n.pawl/*\n"), None);
}

#[test]
fn waiting_decisions() {
    assert_eq!(parse_statuses("completed, Failed").unwrap(), vec![TaskStatus::Completed, TaskStatus::Failed]);
    assert_eq!(
        parse_statuses("running,,done"),
        Err(PawlError::Validation {
            message: "Invalid status ''. Valid values: pending, running, waiting, completed, failed, stopped"
                .to_string()
        })
    );
    assert!(is_terminal_mismatch(TaskStatus::Completed, &vec![TaskStatus::Running]));
    assert!(!is_terminal_mismatch(TaskStatus::Failed, &vec![TaskStatus::Failed]));
    assert!(!is_terminal_mismatch(TaskStatus::Running, &vec![TaskStatus::Completed]));
    assert!(is_terminal_mismatch(TaskStatus::Failed, &vec![TaskStatus::Completed, TaskStatus::Waiting]));
    assert!(is_terminal_mismatch(TaskStatus::Failed, &vec![TaskStatus::Pending]));
    assert!(is_terminal_mismatch(TaskStatus::Stopped, &vec![TaskStatus::Pending, TaskStatus::Running]));
    assert!(!is_terminal_mismatch(TaskStatus::Stopped, &vec![TaskStatus::Failed]));
    assert!(TaskStatus::Failed.can_reach(TaskStatus::Stopped));
    assert!(!TaskStatus::Failed.can_reach(TaskStatus::Pending));

    let targets = vec![TaskStatus::Completed];
    let mut reached = vec![false, false];
    assert_eq!(
        check_round(&vec![TaskStatus::Completed, TaskStatus::Running], &mut reached, &targets, false),
        WaitRound::Pending
    );
    assert_eq!(reached, vec![true, false]);
    assert_eq!(
        check_round(&vec![TaskStatus::Running, TaskStatus::Completed], &mut reached, &targets, false),
        WaitRound::AllReached
    );
    let mut fresh = vec![false, false];
    assert_eq!(
        check_round(&vec![TaskStatus::Running, TaskStatus::Failed], &mut fresh, &targets, false),
        WaitRound::Mismatch(1)
    );
    let mut fresh = vec![false, false];
    assert_eq!(
        check_round(&vec![TaskStatus::Failed, TaskStatus::Completed], &mut fresh, &targets, true),
        WaitRound::AnyReached(1)
    );
    assert_eq!(
        mismatch_error("t", TaskStatus::Failed, "completed"),
        PawlError::StateConflict {
            task: "t".to_string(),
            status: "failed".to_string(),
            message: "will not reach any of 'completed'".to_string(),
        }
    );
    assert_eq!(
        timeout_error(&s(&["a"]), "completed", &vec![TaskStatus::Running]),
        PawlError::Timeout {
            message: "waiting for task 'a' to reach 'completed' (current: a=running)".to_string()
        }
    );
    assert_eq!(
        timeout_error(&s(&["a", "b"]), "completed", &vec![TaskStatus::Running, TaskStatus::Pending]),
        PawlError::Timeout {
            message: "waiting for 2 tasks to reach 'completed' (current: a=running, b=pending)".to_string()
        }
    );
}

#[test]
fn server_requests() {
    assert_eq!(route("/"), Route::Root);
    assert_eq!(route("/api/status"), Route::Status);
    assert_eq!(route("/api/stream/auth?offset=3"), Route::Stream);
    assert_eq!(route("/api/events?since=1"), Route::Events);
    assert_eq!(route("/app.js"), Route::Static);
    assert_eq!(route("/api/other"), Route::NotFound);
    assert_eq!(stream_request("/api/stream/auth?offset=12&x=1"), Ok(("auth".to_string(), 12)));
    assert_eq!(stream_request("/api/stream/auth?offset=abc"), Ok(("auth".to_string(), 0)));
    assert_eq!(stream_request("/api/stream/auth"), Ok(("auth".to_string(), 0)));
    assert_eq!(stream_request("/api/stream/?offset=1"), Err("Missing task name".to_string()));
    assert_eq!(events_since("/api/events?since=-25&limit=3"), Some(-25));
    assert_eq!(events_since("/api/events"), None);
    assert_eq!(static_path("//css/app.css"), Some("css/app.css".to_string()));
    assert_eq!(static_path("/a/../secret"), None);
    assert_eq!(static_path("/"), None);
    assert_eq!(content_type_for("css/app.css"), "text/css; charset=utf-8");
    assert_eq!(content_type_for("index.htm"), "text/html; charset=utf-8");
    assert_eq!(content_type_for("blob"), "application/octet-stream");
    let ts = Timestamp { secs: 0, nanos: 0 };
    assert_eq!(build_event_detail(&Event::StepReset { ts, step: 0, auto: true }), "auto");
    assert_eq!(build_event_detail(&Event::StepReset { ts, step: 0, auto: false }), "manual");
    assert_eq!(build_event_detail(&Event::TaskReset { ts }), "");
}

#[test]
fn number_parsing_follows_std() {
    for text in ["0", "+7", "42", "007", "", "+", "-1", "1a", "18446744073709551615", "18446744073709551616"] {
        assert_eq!(parse_u64(text), text.parse::<u64>().ok(), "u64 {:?}", text);
        assert_eq!(parse_usize(text), text.parse::<usize>().ok(), "usize {:?}", text);
    }
    for text in ["-9223372036854775808", "-9223372036854775809", "9223372036854775807", "9223372036854775808", "-", "-0", "+-1", "12"] {
        assert_eq!(parse_i64(text), text.parse::<i64>().ok(), "i64 {:?}", text);
    }
}

#[test]
fn a_written_task_file_reads_back() {
    let deps = s(&["lib", "api-v2"]);
    let content = generate_task_content("ship it", Some("Deploy --- carefully."), &deps);
    let t = TaskDefinition::parse(&content, "other").unwrap();
    assert_eq!(t.name, "ship it");
    assert_eq!(t.depends, deps);
    assert!(t.skip.is_empty());
    assert_eq!(t.description, "## Task: ship it\n\nDeploy --- carefully.\n");

    let bare = TaskDefinition::parse(&generate_task_content("solo", Some(""), &vec![]), "other").unwrap();
    assert_eq!(bare.name, "solo");
    assert!(bare.depends.is_empty());
    assert_eq!(bare.description, "## Task: solo\n\n\n");
}
