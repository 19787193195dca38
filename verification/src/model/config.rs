//! Workflow configuration.
use indexmap::IndexMap;
use std::collections::HashMap;
use std::path::Path;
use vstd::prelude::*;

use crate::model::event::pair_views;
use crate::model::task::string_views;
use crate::text::owned;

verus! {

#[verifier::external_type_specification]
#[verifier::external_body]
#[verifier::reject_recursive_types(K)]
#[verifier::reject_recursive_types(V)]
#[verifier::reject_recursive_types(S)]
pub struct ExIndexMap<K, V, S>(IndexMap<K, V, S>);

/// Per-task metadata declared in a workflow.
#[derive(Debug, Clone, Default)]
pub struct TaskConfig {
    pub description: Option<String>,
    pub depends: Vec<String>,
    pub skip: Vec<String>,
}

/// One step of a workflow.
#[derive(Debug, Clone)]
pub struct Step {
    /// Step name.
    pub name: String,
    /// Command to run (`None` makes the step a gate).
    pub run: Option<String>,
    /// Whether to run in a viewport.
    pub in_viewport: bool,
    /// Verifier: a shell command that must exit 0, or "manual".
    pub verify: Option<String>,
    /// Failure strategy: "retry" or "manual".
    pub on_fail: Option<String>,
    /// Most automatic retries when `on_fail` is "retry".
    pub max_retries: Option<usize>,
}

/// The mathematical value of a `TaskConfig`.
pub struct TaskConfigView {
    pub description: Option<Seq<char>>,
    pub depends: Seq<Seq<char>>,
    pub skip: Seq<Seq<char>>,
}

impl View for TaskConfig {
    type V = TaskConfigView;

    open spec fn view(&self) -> TaskConfigView {
        TaskConfigView {
            description: match self.description {
                Some(d) => Some(d@),
                None => None,
            },
            depends: string_views(self.depends@),
            skip: string_views(self.skip@),
        }
    }
}

/// What a map of user variables holds: its entries in insertion order.
pub uninterp spec fn var_entries(m: IndexMap<String, String>) -> Seq<(Seq<char>, Seq<char>)>;

/// What a map of task declarations holds: its entries in insertion order.
pub uninterp spec fn task_entries(m: IndexMap<String, TaskConfig>) -> Seq<(Seq<char>, TaskConfigView)>;

/// What a map of event hooks holds: event tag to command.
pub uninterp spec fn hook_entries(m: HashMap<String, String>) -> Map<Seq<char>, Seq<char>>;

/// The last path component of a directory, as `Path::file_name` gives it,
/// when there is one and it is valid Unicode.
pub uninterp spec fn path_file_name(p: Seq<char>) -> Option<Seq<char>>;

/// The entries of a variable map, in order (`IndexMap::iter`, each entry
/// cloned).
#[verifier::external_body]
fn var_list(m: &IndexMap<String, String>) -> (r: Vec<(String, String)>)
    ensures
        pair_views(r@) == var_entries(*m),
{
    m.iter().map(|(k, v)| (k.clone(), v.clone())).collect()
}

/// The declaration of a task by name (`IndexMap::get`): the value of an
/// entry with that key, or none when no entry has it.
#[verifier::external_body]
fn task_get<'a>(m: &'a IndexMap<String, TaskConfig>, name: &str) -> (r: Option<&'a TaskConfig>)
    ensures
        match r {
            Some(t) => exists|i: int|
                0 <= i < task_entries(*m).len() && #[trigger] task_entries(*m)[i] == (name@, t@),
            None => forall|i: int|
                0 <= i < task_entries(*m).len() ==> #[trigger] task_entries(*m)[i].0 != name@,
        },
{
    m.get(name)
}

/// The task names of a declaration map, in order (`IndexMap::keys`, each
/// cloned).
#[verifier::external_body]
fn task_keys(m: &IndexMap<String, TaskConfig>) -> (r: Vec<String>)
    ensures
        string_views(r@) == task_entries(*m).map_values(|e: (Seq<char>, TaskConfigView)| e.0),
{
    m.keys().cloned().collect()
}

/// The command of the hook for an event tag (`HashMap::get`, cloned).
#[verifier::external_body]
fn hook_get(m: &HashMap<String, String>, tag: &str) -> (r: Option<String>)
    ensures
        match r {
            Some(c) => hook_entries(*m).contains_key(tag@) && hook_entries(*m)[tag@] == c@,
            None => !hook_entries(*m).contains_key(tag@),
        },
{
    m.get(tag).cloned()
}

/// The last component of a directory path (`Path::file_name`, then
/// `OsStr::to_str`).
#[verifier::external_body]
fn file_name_of(dir: &str) -> (r: Option<String>)
    ensures
        match r {
            Some(n) => path_file_name(dir@) == Some(n@),
            None => path_file_name(dir@) is None,
        },
{
    Path::new(dir).file_name().and_then(|n| n.to_str()).map(|n| n.to_string())
}

/// A workflow: its steps, the tasks it declares, its variables and hooks.
#[derive(Debug)]
pub struct Config {
    /// Session name (by default the project directory's name).
    pub session: Option<String>,
    /// Viewport backend ("tmux" by default).
    pub viewport: String,
    /// User-defined variables, expanded in definition order.
    pub vars: IndexMap<String, String>,
    /// Per-task metadata.
    pub tasks: IndexMap<String, TaskConfig>,
    /// The steps.
    pub workflow: Vec<Step>,
    /// Event hooks: event tag to shell command.
    pub on: HashMap<String, String>,
}

/// The mathematical value of a workflow.
pub struct ConfigView {
    pub session: Option<Seq<char>>,
    pub viewport: Seq<char>,
    pub vars: Seq<(Seq<char>, Seq<char>)>,
    pub tasks: Seq<(Seq<char>, TaskConfigView)>,
    pub workflow: Seq<Step>,
    pub on: Map<Seq<char>, Seq<char>>,
}

impl View for Config {
    type V = ConfigView;

    open spec fn view(&self) -> ConfigView {
        ConfigView {
            session: match self.session {
                Some(s) => Some(s@),
                None => None,
            },
            viewport: self.viewport@,
            vars: var_entries(self.vars),
            tasks: task_entries(self.tasks),
            workflow: self.workflow@,
            on: hook_entries(self.on),
        }
    }
}

/// The session name of a workflow in a project directory.
pub open spec fn session_name_of(session: Option<Seq<char>>, project_dir: Seq<char>) -> Seq<char> {
    match session {
        Some(s) => s,
        None => match path_file_name(project_dir) {
            Some(n) => n,
            None => "pawl"@,
        },
    }
}

/// The warnings a workflow's steps deserve, in step order: a gate step with
/// a verifier or failure policy, an in-viewport step without a verifier, an
/// in-viewport step with a verifier but no failure policy.
pub open spec fn step_warnings(s: Step) -> Seq<Seq<char>> {
    (if s.run is None && (s.verify is Some || s.on_fail is Some) {
        seq![
            "Warning: step '"@ + s.name@
                + "' has verify/on_fail but no run command \u{2014} it will be treated as a gate step."@,
        ]
    } else {
        seq![]
    }) + (if s.in_viewport && s.verify is None {
        seq![
            "Warning: step '"@ + s.name@
                + "' (in_viewport) has no verify \u{2014} `pawl done` will assume success unconditionally."@,
        ]
    } else {
        seq![]
    }) + (if s.in_viewport && s.verify is Some && s.on_fail is None {
        seq![
            "Warning: step '"@ + s.name@
                + "' (in_viewport) has verify but no on_fail \u{2014} verify failure is terminal."@,
        ]
    } else {
        seq![]
    })
}

pub open spec fn workflow_warnings(steps: Seq<Step>) -> Seq<Seq<char>>
    decreases steps.len(),
{
    if steps.len() == 0 {
        seq![]
    } else {
        workflow_warnings(steps.drop_last()) + step_warnings(steps.last())
    }
}

fn push_warning(out: &mut Vec<String>, prefix: &str, name: &String, suffix: &str)
    ensures
        string_views(final(out)@) == string_views(old(out)@).push(prefix@ + name@ + suffix@),
{
    let mut w = owned(prefix);
    w.append(name.as_str());
    w.append(suffix);
    out.push(w);
    assert(string_views(out@) =~= string_views(old(out)@).push(prefix@ + name@ + suffix@));
}

/// The warnings to print after a workflow has been read.
pub fn config_warnings(workflow: &Vec<Step>) -> (r: Vec<String>)
    ensures
        string_views(r@) == workflow_warnings(workflow@),
{
    let mut out: Vec<String> = Vec::new();
    let mut i: usize = 0;
    while i < workflow.len()
        invariant
            i <= workflow.len(),
            string_views(out@) == workflow_warnings(workflow@.take(i as int)),
        decreases workflow.len() - i,
    {
        let s = &workflow[i];
        let ghost before = string_views(out@);
        if s.run.is_none() && (s.verify.is_some() || s.on_fail.is_some()) {
            push_warning(
                &mut out,
                "Warning: step '",
                &s.name,
                "' has verify/on_fail but no run command \u{2014} it will be treated as a gate step.",
            );
        }
        let ghost mid1 = string_views(out@);
        if s.in_viewport && s.verify.is_none() {
            push_warning(
                &mut out,
                "Warning: step '",
                &s.name,
                "' (in_viewport) has no verify \u{2014} `pawl done` will assume success unconditionally.",
            );
        }
        let ghost mid2 = string_views(out@);
        if s.in_viewport && s.verify.is_some() && s.on_fail.is_none() {
            push_warning(
                &mut out,
                "Warning: step '",
                &s.name,
                "' (in_viewport) has verify but no on_fail \u{2014} verify failure is terminal.",
            );
        }
        proof {
            assert(workflow@.take(i + 1).drop_last() =~= workflow@.take(i as int));
            assert(string_views(out@) =~= before + step_warnings(workflow@[i as int]));
        }
        i = i + 1;
    }
    assert(workflow@.take(i as int) =~= workflow@);
    out
}

impl Config {
    /// The session name: the configured one, else the last component of
    /// the project directory, else "pawl".
    pub fn session_name(&self, project_dir: &str) -> (r: String)
        ensures
            r@ == session_name_of(
                match self.session {
                    Some(s) => Some(s@),
                    None => None,
                },
                project_dir@,
            ),
    {
        match &self.session {
            Some(s) => s.clone(),
            None => match file_name_of(project_dir) {
                Some(n) => n,
                None => owned("pawl"),
            },
        }
    }

    /// The user variables, in definition order.
    pub fn var_list(&self) -> (r: Vec<(String, String)>)
        ensures
            pair_views(r@) == var_entries(self.vars),
    {
        var_list(&self.vars)
    }

    /// The declaration of a task in this workflow.
    pub fn task_config(&self, name: &str) -> (r: Option<&TaskConfig>)
        ensures
            match r {
                Some(t) => exists|i: int|
                    0 <= i < task_entries(self.tasks).len() && #[trigger] task_entries(self.tasks)[i]
                        == (name@, t@),
                None => forall|i: int|
                    0 <= i < task_entries(self.tasks).len() ==> #[trigger] task_entries(
                        self.tasks,
                    )[i].0 != name@,
            },
    {
        task_get(&self.tasks, name)
    }

    /// The names of the tasks this workflow declares, in order.
    pub fn task_names(&self) -> (r: Vec<String>)
        ensures
            string_views(r@) == task_entries(self.tasks).map_values(
                |e: (Seq<char>, TaskConfigView)| e.0,
            ),
    {
        task_keys(&self.tasks)
    }

    /// The hook command for an event tag, if one is configured.
    pub fn hook_for(&self, tag: &str) -> (r: Option<String>)
        ensures
            match r {
                Some(c) => hook_entries(self.on).contains_key(tag@) && hook_entries(self.on)[tag@]
                    == c@,
                None => !hook_entries(self.on).contains_key(tag@),
            },
    {
        hook_get(&self.on, tag)
    }
}

/// The number of automatic retries a step allows (3 unless configured).
pub open spec fn max_retries_of(step: Step) -> nat {
    match step.max_retries {
        Some(n) => n as nat,
        None => 3,
    }
}

impl Step {
    /// A gate step has no command: it waits for approval.
    pub fn is_gate(&self) -> (b: bool)
        ensures
            b == self.run.is_none(),
    {
        self.run.is_none()
    }

    /// Most automatic retries (default 3).
    pub fn effective_max_retries(&self) -> (n: usize)
        ensures
            n == max_retries_of(*self),
    {
        match self.max_retries {
            Some(n) => n,
            None => 3,
        }
    }
}

} // verus!
