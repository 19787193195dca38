use std::collections::HashMap;

use pawl::util::variable::Context;

fn env_map(ctx: &Context) -> HashMap<String, String> {
    ctx.to_env_vars().into_iter().collect()
}

#[test]
fn test_expand() {
    let ctx = Context::build()
        .var("task", "auth")
        .var("session", "my-project")
        .var("project_root", "/home/user/project")
        .var("step", "Type check");

    assert_eq!(ctx.expand("${task}"), "auth");
    assert_eq!(ctx.expand("${project_root}"), "/home/user/project");
    assert_eq!(ctx.expand("echo ${task} in ${project_root}"), "echo auth in /home/user/project");
}

#[test]
fn test_expand_with_user_vars() {
    let ctx = Context::build()
        .var("task", "auth")
        .var("project_root", "/home/user/project")
        .var_owned("branch".to_string(), "pawl/auth".to_string())
        .var_owned("worktree".to_string(), "/home/user/project/.pawl/worktrees/auth".to_string());

    assert_eq!(ctx.expand("${branch}"), "pawl/auth");
    assert_eq!(ctx.expand("git checkout ${branch}"), "git checkout pawl/auth");
    assert_eq!(
        ctx.expand("cd ${worktree} && npm test"),
        "cd /home/user/project/.pawl/worktrees/auth && npm test"
    );
}

#[test]
fn test_expand_full_context() {
    let ctx = Context::build()
        .var("task", "auth")
        .var("session", "my-project")
        .var("project_root", "/home/user/project")
        .var("step", "Develop")
        .var("step_index", "1")
        .var("log_file", "/home/user/project/.pawl/logs/auth.jsonl");

    assert_eq!(ctx.expand("${log_file}"), "/home/user/project/.pawl/logs/auth.jsonl");
    assert_eq!(ctx.expand("${step_index}"), "1");
    assert_eq!(ctx.expand("cat ${log_file}"), "cat /home/user/project/.pawl/logs/auth.jsonl");
}

#[test]
fn test_env_vars() {
    let ctx = Context::build()
        .var("task", "auth")
        .var("session", "my-project")
        .var("project_root", "/home/user/project")
        .var("step", "Setup")
        .var("step_index", "1")
        .var("log_file", "/logs/auth.jsonl");

    let env = env_map(&ctx);
    assert_eq!(env.get("PAWL_TASK"), Some(&"auth".to_string()));
    assert_eq!(env.get("PAWL_PROJECT_ROOT"), Some(&"/home/user/project".to_string()));
    assert_eq!(env.get("PAWL_LOG_FILE"), Some(&"/logs/auth.jsonl".to_string()));
    assert_eq!(env.get("PAWL_STEP_INDEX"), Some(&"1".to_string()));
}

#[test]
fn test_env_vars_with_user_vars() {
    let ctx = Context::build()
        .var("task", "auth")
        .var_owned("branch".to_string(), "pawl/auth".to_string())
        .var_owned("base_branch".to_string(), "main".to_string());

    let env = env_map(&ctx);
    assert_eq!(env.get("PAWL_TASK"), Some(&"auth".to_string()));
    assert_eq!(env.get("PAWL_BRANCH"), Some(&"pawl/auth".to_string()));
    assert_eq!(env.get("PAWL_BASE_BRANCH"), Some(&"main".to_string()));
}

#[test]
fn test_get() {
    let ctx = Context::build().var("task", "auth").var("project_root", "/repo");
    assert_eq!(ctx.get("task"), Some("auth"));
    assert_eq!(ctx.get("project_root"), Some("/repo"));
    assert_eq!(ctx.get("nonexistent"), None);
}

#[test]
fn test_user_var_expansion_order() {
    let mut ctx = Context::build().var("task", "auth").var("project_root", "/repo");

    let branch_template = "pawl/${task}";
    let expanded_branch = ctx.expand(branch_template);
    ctx = ctx.var_owned("branch".to_string(), expanded_branch);

    let worktree_template = "${project_root}/.pawl/worktrees/${task}";
    let expanded_worktree = ctx.expand(worktree_template);
    ctx = ctx.var_owned("worktree".to_string(), expanded_worktree);

    assert_eq!(ctx.get("branch"), Some("pawl/auth"));
    assert_eq!(ctx.get("worktree"), Some("/repo/.pawl/worktrees/auth"));
}

#[test]
fn later_binding_of_a_name_wins() {
    let ctx = Context::build().var("task", "a").var("task", "b");
    assert_eq!(ctx.get("task"), Some("b"));
    let env = env_map(&ctx);
    assert_eq!(env.get("PAWL_TASK"), Some(&"b".to_string()));
    let pairs = Context::build().var("task", "a").var("step", "s").var("TASK", "c").to_env_vars();
    assert_eq!(pairs.len(), 2);
    assert!(pairs.contains(&("PAWL_TASK".to_string(), "c".to_string())));
    assert!(pairs.contains(&("PAWL_STEP".to_string(), "s".to_string())));
    let copy = ctx.clone();
    assert_eq!(copy.get("task"), Some("b"));
}

#[test]
fn expansion_follows_binding_order() {
    // The value of an earlier binding may hold the placeholder of a later one.
    let ctx = Context::build().var("a", "${b}!").var("b", "x");
    assert_eq!(ctx.expand("${a}"), "x!");
    // A later value is not expanded again by an earlier binding.
    let ctx = Context::build().var("b", "x").var("a", "${b}!");
    assert_eq!(ctx.expand("${a}"), "${b}!");
}

#[test]
fn extend_appends_bindings() {
    let mut ctx = Context::build().var("task", "auth");
    ctx.extend(vec![("exit_code".to_string(), "0".to_string())]);
    assert_eq!(ctx.expand("${task}:${exit_code}"), "auth:0");
    assert_eq!(ctx.expand("${unknown}"), "${unknown}");
}

#[test]
fn plain_values_are_put_in_place_at_once() {
    let ctx = Context::build().var("task", "auth").var("branch", "pawl/auth").var("dir", "{x}");
    assert_eq!(ctx.expand("cd ${dir} && git checkout ${branch} # ${task} ${task}"), "cd {x} && git checkout pawl/auth # auth auth");
    assert_eq!(Context::build().expand("keep ${task} as is"), "keep ${task} as is");
}
