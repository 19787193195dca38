//! What the commands share: the retry context of a step, and the project
//! with its workflows.
use indexmap::IndexMap;
use vstd::prelude::*;

use crate::error::PawlError;
use crate::model::config::{session_name_of, task_entries, Config, ConfigView, Step, TaskConfig, TaskConfigView};
use crate::model::event::{
    auto_retries, count_auto_retries, ends_retry_history, extra_vars_of, pair_views, step_of,
    type_tag_of, Event,
};
use crate::model::state::opt_view;
use crate::model::state::{TaskState, TaskStatus};
use crate::model::task::string_views;
use crate::text::{decimal, join, join_strings, owned, parse_usize, parsed_usize, str_eq, usize_to_decimal};
use crate::util::variable::{expand_spec, Context};

verus! {

// ---------------------------------------------------------------------------
// Retry context
// ---------------------------------------------------------------------------

/// The non-empty outputs of a failed step, in the order verifier output,
/// standard output, standard error.
pub open spec fn feedback_parts(
    verify_output: Option<String>,
    stdout: Option<String>,
    stderr: Option<String>,
) -> Seq<Seq<char>> {
    let keep = |o: Option<String>|
        match o {
            Some(s) => if s@.len() > 0 {
                seq![s@]
            } else {
                seq![]
            },
            None => seq![],
        };
    keep(verify_output) + keep(stdout) + keep(stderr)
}

/// The feedback an event gives about `step`: for a failure of that step
/// with some output, the outputs joined by newlines.
pub open spec fn feedback_of(e: Event, step: usize) -> Option<Seq<char>> {
    match e {
        Event::StepFinished { step: s, success, stdout, stderr, verify_output, .. } => {
            let parts = feedback_parts(verify_output, stdout, stderr);
            if s == step && !success && parts.len() > 0 {
                Some(join(parts, "\n"@))
            } else {
                None
            }
        },
        _ => None,
    }
}

/// The feedback of the latest failure of `step` in its current retry
/// history (since the last task start, task reset or manual reset of the
/// step).
pub open spec fn last_feedback(events: Seq<Event>, step: usize) -> Option<Seq<char>>
    decreases events.len(),
{
    if events.len() == 0 {
        None
    } else if ends_retry_history(events.last(), step) {
        None
    } else if feedback_of(events.last(), step) is Some {
        feedback_of(events.last(), step)
    } else {
        last_feedback(events.drop_last(), step)
    }
}

fn push_nonempty(parts: &mut Vec<String>, o: &Option<String>)
    ensures
        final(parts)@.map_values(|p: String| p@) == old(parts)@.map_values(|p: String| p@) + match *o {
            Some(s) => if s@.len() > 0 {
                seq![s@]
            } else {
                seq![]
            },
            None => seq![],
        },
{
    if let Some(s) = o {
        if s.as_str().unicode_len() > 0 {
            parts.push(s.clone());
        }
    }
    assert(parts@.map_values(|p: String| p@) =~= old(parts)@.map_values(|p: String| p@) + match *o {
        Some(s) => if s@.len() > 0 {
            seq![s@]
        } else {
            seq![]
        },
        None => seq![],
    });
}

fn feedback(e: &Event, step_idx: usize) -> (r: Option<String>)
    ensures
        match r {
            Some(f) => feedback_of(*e, step_idx) == Some(f@),
            None => feedback_of(*e, step_idx) is None,
        },
{
    match e {
        Event::StepFinished { step, success, stdout, stderr, verify_output, .. } => {
            if *step != step_idx || *success {
                return None;
            }
            let mut parts: Vec<String> = Vec::new();
            push_nonempty(&mut parts, verify_output);
            push_nonempty(&mut parts, stdout);
            push_nonempty(&mut parts, stderr);
            assert(parts@.map_values(|p: String| p@) =~= feedback_parts(
                *verify_output,
                *stdout,
                *stderr,
            ));
            if parts.len() == 0 {
                None
            } else {
                Some(join_strings(&parts, "\n"))
            }
        },
        _ => None,
    }
}

/// The retry count and the latest failure feedback of a step, for the
/// `${retry_count}` and `${last_verify_output}` variables.
pub fn extract_step_context(events: &[Event], step_idx: usize) -> (r: (usize, Option<String>))
    ensures
        r.0 == auto_retries(events@, step_idx),
        match r.1 {
            Some(f) => last_feedback(events@, step_idx) == Some(f@),
            None => last_feedback(events@, step_idx) is None,
        },
{
    let retry_count = count_auto_retries(events, step_idx);
    let mut i = events.len();
    assert(events@.take(i as int) =~= events@);
    while i > 0
        invariant
            i <= events.len(),
            retry_count == auto_retries(events@, step_idx),
            last_feedback(events@, step_idx) == last_feedback(events@.take(i as int), step_idx),
        decreases i,
    {
        let ghost t = events@.take(i as int);
        assert(t.drop_last() =~= events@.take(i - 1));
        assert(t.last() == events@[i - 1]);
        match &events[i - 1] {
            Event::TaskStarted { .. } | Event::TaskReset { .. } => {
                return (retry_count, None);
            },
            Event::StepReset { step, auto, .. } => {
                if *step == step_idx && !*auto {
                    return (retry_count, None);
                }
            },
            _ => {},
        }
        let f = feedback(&events[i - 1], step_idx);
        if f.is_some() {
            return (retry_count, f);
        }
        i = i - 1;
    }
    (retry_count, None)
}

// ---------------------------------------------------------------------------
// Viewport watch
// ---------------------------------------------------------------------------

/// Whether a task's state asks for a viewport window: it is running, and
/// its current step runs in a viewport.
pub open spec fn in_viewport_now(s: TaskState, workflow: Seq<Step>) -> bool {
    &&& s.status == TaskStatus::Running
    &&& s.current_step < workflow.len()
    &&& workflow[s.current_step as int].in_viewport
}

/// The step whose viewport window must still exist: the current step of a
/// running task, when that step runs in a viewport. A task whose watched
/// window is gone has lost its viewport.
pub open spec fn watched_step(state: Option<TaskState>, workflow: Seq<Step>) -> Option<usize> {
    match state {
        Some(s) => if in_viewport_now(s, workflow) {
            Some(s.current_step)
        } else {
            None
        },
        None => None,
    }
}

/// The step whose viewport window must be checked, if any.
pub fn viewport_step_to_watch(state: &Option<TaskState>, workflow: &Vec<Step>) -> (r: Option<usize>)
    ensures
        r == watched_step(*state, workflow@),
{
    match state {
        Some(s) => {
            let running = s.status == TaskStatus::Running;
            if running && s.current_step < workflow.len() {
                if workflow[s.current_step].in_viewport {
                    return Some(s.current_step);
                }
            }
            None
        },
        None => None,
    }
}

// ---------------------------------------------------------------------------
// The project and its workflows
// ---------------------------------------------------------------------------

/// What the map of a project's workflows holds: name and workflow, in the
/// order the files were read.
pub uninterp spec fn workflow_entries(m: IndexMap<String, Config>) -> Seq<(Seq<char>, ConfigView)>;

/// An empty map of workflows (`IndexMap::new`).
#[verifier::external_body]
fn workflows_new() -> (m: IndexMap<String, Config>)
    ensures
        workflow_entries(m) == Seq::<(Seq<char>, ConfigView)>::empty(),
{
    IndexMap::new()
}

/// Adds a workflow under a name the map does not hold yet
/// (`IndexMap::insert`, which puts a new key last).
#[verifier::external_body]
fn workflows_insert(m: &mut IndexMap<String, Config>, name: String, config: Config)
    requires
        forall|i: int| 0 <= i < workflow_entries(*old(m)).len() ==> #[trigger] workflow_entries(*old(m))[i].0 != name@,
    ensures
        workflow_entries(*final(m)) == workflow_entries(*old(m)).push((name@, config@)),
{
    m.insert(name, config);
}

/// The number of workflows (`IndexMap::len`).
#[verifier::external_body]
fn workflows_len(m: &IndexMap<String, Config>) -> (n: usize)
    ensures
        n == workflow_entries(*m).len(),
{
    m.len()
}

/// The workflow at a position (`IndexMap::get_index`).
#[verifier::external_body]
fn workflow_at(m: &IndexMap<String, Config>, i: usize) -> (r: (&String, &Config))
    requires
        i < workflow_entries(*m).len(),
    ensures
        (r.0@, r.1@) == workflow_entries(*m)[i as int],
{
    m.get_index(i).unwrap()
}

/// The names of the tasks a workflow declares.
pub open spec fn task_names_of(c: ConfigView) -> Seq<Seq<char>> {
    c.tasks.map_values(|e: (Seq<char>, TaskConfigView)| e.0)
}

/// Whether a workflow declares a task.
pub open spec fn declares(c: ConfigView, task: Seq<char>) -> bool {
    task_names_of(c).contains(task)
}

/// All declared task names, workflow after workflow.
pub open spec fn all_task_names(ws: Seq<(Seq<char>, ConfigView)>) -> Seq<Seq<char>>
    decreases ws.len(),
{
    if ws.len() == 0 {
        seq![]
    } else {
        all_task_names(ws.drop_last()) + task_names_of(ws.last().1)
    }
}

/// The position of the first workflow that declares a task.
pub open spec fn first_declaring(ws: Seq<(Seq<char>, ConfigView)>, task: Seq<char>) -> Option<int>
    decreases ws.len(),
{
    if ws.len() == 0 {
        None
    } else {
        match first_declaring(ws.drop_last(), task) {
            Some(i) => Some(i),
            None => if declares(ws.last().1, task) {
                Some(ws.len() - 1)
            } else {
                None
            },
        }
    }
}

proof fn lemma_first_declaring_prefix(ws: Seq<(Seq<char>, ConfigView)>, task: Seq<char>, k: int)
    requires
        0 <= k <= ws.len(),
        first_declaring(ws.take(k), task) is Some,
    ensures
        first_declaring(ws, task) == first_declaring(ws.take(k), task),
    decreases ws.len() - k,
{
    if k < ws.len() {
        assert(ws.take(k + 1).drop_last() =~= ws.take(k));
        lemma_first_declaring_prefix(ws, task, k + 1);
    } else {
        assert(ws.take(k) =~= ws);
    }
}

proof fn lemma_first_declaring_bound(ws: Seq<(Seq<char>, ConfigView)>, task: Seq<char>)
    ensures
        first_declaring(ws, task) matches Some(i) ==> 0 <= i < ws.len() && declares(ws[i].1, task),
    decreases ws.len(),
{
    if ws.len() > 0 {
        lemma_first_declaring_bound(ws.drop_last(), task);
    }
}

pub open spec fn undeclared_message(task: Seq<char>) -> Seq<char> {
    "Task '"@ + task
        + "' not declared in any workflow. With multiple workflows, all tasks must be declared."@
}

pub open spec fn clash_message(task: Seq<char>, first: Seq<char>, second: Seq<char>) -> Seq<char> {
    "Task '"@ + task + "' declared in both '"@ + first + "' and '"@ + second
        + "' workflows. Task names must be globally unique."@
}

pub open spec fn no_workflows_message() -> Seq<char> {
    "No workflow files found in .pawl/workflows/. Run 'pawl init' first."@
}

/// The workflow a task runs under: the one that declares it, else the only
/// workflow of the project.
pub open spec fn workflow_index(ws: Seq<(Seq<char>, ConfigView)>, task: Seq<char>) -> Option<int> {
    match first_declaring(ws, task) {
        Some(i) => Some(i),
        None => if ws.len() == 1 {
            Some(0)
        } else {
            None
        },
    }
}

/// The entries that are kept when a project is assembled: those with a name.
pub open spec fn named(loaded: Seq<(Seq<char>, ConfigView)>) -> Seq<(Seq<char>, ConfigView)> {
    loaded.filter(|e: (Seq<char>, ConfigView)| e.0.len() > 0)
}

proof fn lemma_named_push(s: Seq<(Seq<char>, ConfigView)>, e: (Seq<char>, ConfigView))
    ensures
        named(s.push(e)) == if e.0.len() > 0 {
            named(s).push(e)
        } else {
            named(s)
        },
{
    reveal(Seq::filter);
    assert(s.push(e).drop_last() =~= s);
}

proof fn lemma_named_from(s: Seq<(Seq<char>, ConfigView)>, k: int)
    requires
        0 <= k < named(s).len(),
    ensures
        exists|j: int| 0 <= j < s.len() && s[j] == named(s)[k],
    decreases s.len(),
{
    reveal(Seq::filter);
    if s.len() > 0 {
        let d = s.drop_last();
        if k < named(d).len() {
            lemma_named_from(d, k);
            let j = choose|j: int| 0 <= j < d.len() && d[j] == named(d)[k];
            assert(s[j] == d[j]);
        } else {
            assert(named(s)[k] == s.last());
        }
    }
}

/// The task names a workflow declares, each with the workflow's name.
pub open spec fn owner_pairs(w: (Seq<char>, ConfigView)) -> Seq<(Seq<char>, Seq<char>)> {
    task_names_of(w.1).map_values(|t: Seq<char>| (t, w.0))
}

/// Every declared task name with the workflow that declares it, workflow
/// after workflow.
pub open spec fn owned_names(ws: Seq<(Seq<char>, ConfigView)>) -> Seq<(Seq<char>, Seq<char>)>
    decreases ws.len(),
{
    if ws.len() == 0 {
        seq![]
    } else {
        owned_names(ws.drop_last()) + owner_pairs(ws.last())
    }
}

/// The position of the first entry named `t`, or -1.
pub open spec fn first_with_name(s: Seq<(Seq<char>, Seq<char>)>, t: Seq<char>) -> int
    decreases s.len(),
{
    if s.len() == 0 {
        -1
    } else if s[0].0 == t {
        0
    } else {
        let r = first_with_name(s.drop_first(), t);
        if r < 0 {
            -1
        } else {
            r + 1
        }
    }
}

/// The first task name declared twice, read in order: the name, the
/// workflow that declared it first, and the workflow that declares it again.
pub open spec fn first_clash(s: Seq<(Seq<char>, Seq<char>)>) -> Option<(Seq<char>, Seq<char>, Seq<char>)>
    decreases s.len(),
{
    if s.len() == 0 {
        None
    } else {
        match first_clash(s.drop_last()) {
            Some(c) => Some(c),
            None => {
                let k = first_with_name(s.drop_last(), s.last().0);
                if k >= 0 {
                    Some((s.last().0, s[k].1, s.last().1))
                } else {
                    None
                }
            },
        }
    }
}

proof fn lemma_first_with_name(s: Seq<(Seq<char>, Seq<char>)>, t: Seq<char>)
    ensures
        -1 <= first_with_name(s, t) < s.len(),
        first_with_name(s, t) == -1 ==> forall|j: int| 0 <= j < s.len() ==> s[j].0 != t,
        first_with_name(s, t) >= 0 ==> s[first_with_name(s, t)].0 == t && forall|j: int|
            0 <= j < first_with_name(s, t) ==> s[j].0 != t,
    decreases s.len(),
{
    if s.len() > 0 && s[0].0 != t {
        let d = s.drop_first();
        lemma_first_with_name(d, t);
        assert forall|j: int| 0 < j < s.len() implies s[j] == d[j - 1] by {}
    }
}

proof fn lemma_first_with_name_at(s: Seq<(Seq<char>, Seq<char>)>, t: Seq<char>, k: int)
    requires
        0 <= k < s.len(),
        s[k].0 == t,
        forall|j: int| 0 <= j < k ==> s[j].0 != t,
    ensures
        first_with_name(s, t) == k,
{
    lemma_first_with_name(s, t);
}

proof fn lemma_owned_names_concat(a: Seq<(Seq<char>, ConfigView)>, b: Seq<(Seq<char>, ConfigView)>)
    ensures
        owned_names(a + b) == owned_names(a) + owned_names(b),
    decreases b.len(),
{
    if b.len() == 0 {
        assert(a + b =~= a);
        assert(owned_names(a) + owned_names(b) =~= owned_names(a));
    } else {
        lemma_owned_names_concat(a, b.drop_last());
        assert((a + b).drop_last() =~= a + b.drop_last());
        assert((a + b).last() == b.last());
        assert(owned_names(a) + owned_names(b.drop_last()) + owner_pairs(b.last()) =~= owned_names(a)
            + (owned_names(b.drop_last()) + owner_pairs(b.last())));
    }
}

proof fn lemma_all_names_owned(ws: Seq<(Seq<char>, ConfigView)>)
    ensures
        all_task_names(ws) == owned_names(ws).map_values(|p: (Seq<char>, Seq<char>)| p.0),
    decreases ws.len(),
{
    if ws.len() > 0 {
        lemma_all_names_owned(ws.drop_last());
        assert(owned_names(ws).map_values(|p: (Seq<char>, Seq<char>)| p.0) =~= owned_names(
            ws.drop_last(),
        ).map_values(|p: (Seq<char>, Seq<char>)| p.0) + task_names_of(ws.last().1));
    } else {
        assert(owned_names(ws).map_values(|p: (Seq<char>, Seq<char>)| p.0) =~= Seq::<Seq<char>>::empty());
    }
}

proof fn lemma_first_clash_prefix(s: Seq<(Seq<char>, Seq<char>)>, k: int)
    requires
        0 <= k <= s.len(),
        first_clash(s.take(k)) is Some,
    ensures
        first_clash(s) == first_clash(s.take(k)),
    decreases s.len() - k,
{
    if k < s.len() {
        assert(s.take(k + 1).drop_last() =~= s.take(k));
        lemma_first_clash_prefix(s, k + 1);
    } else {
        assert(s.take(k) =~= s);
    }
}

/// There is no clash exactly when no task name is declared twice.
proof fn lemma_no_clash(s: Seq<(Seq<char>, Seq<char>)>)
    ensures
        first_clash(s) is None <==> s.map_values(|p: (Seq<char>, Seq<char>)| p.0).no_duplicates(),
    decreases s.len(),
{
    let names = s.map_values(|p: (Seq<char>, Seq<char>)| p.0);
    if s.len() > 0 {
        let d = s.drop_last();
        let dn = d.map_values(|p: (Seq<char>, Seq<char>)| p.0);
        lemma_no_clash(d);
        lemma_first_with_name(d, s.last().0);
        assert(names =~= dn.push(s.last().0));
        if first_clash(s) is None {
            assert(first_clash(d) is None);
            assert(first_with_name(d, s.last().0) < 0);
            assert forall|i: int, j: int| 0 <= i < names.len() && 0 <= j < names.len() && i != j implies names[i]
                != names[j] by {
                if i < d.len() && j < d.len() {
                    assert(names[i] == dn[i] && names[j] == dn[j]);
                } else if i == d.len() {
                    assert(names[j] == d[j].0);
                } else {
                    assert(names[i] == d[i].0);
                }
            }
        }
        if names.no_duplicates() {
            assert forall|i: int, j: int| 0 <= i < dn.len() && 0 <= j < dn.len() && i != j implies dn[i] != dn[j] by {
                assert(names[i] == dn[i] && names[j] == dn[j]);
            }
            if first_with_name(d, s.last().0) >= 0 {
                let k = first_with_name(d, s.last().0);
                assert(names[k] == names[d.len() as int]);
            }
        }
    }
}

/// The named entries split around the entry at `i`, when it has a name.
proof fn lemma_named_split(views: Seq<(Seq<char>, ConfigView)>, i: int)
    requires
        0 <= i < views.len(),
        views[i].0.len() > 0,
    ensures
        named(views) == named(views.take(i)) + seq![views[i]] + named(views.skip(i + 1)),
{
    let cur = views[i];
    let pred = |e: (Seq<char>, ConfigView)| e.0.len() > 0;
    assert(views =~= views.take(i) + (seq![cur] + views.skip(i + 1)));
    Seq::filter_distributes_over_add(views.take(i), seq![cur] + views.skip(i + 1), pred);
    Seq::filter_distributes_over_add(seq![cur], views.skip(i + 1), pred);
    lemma_named_push(Seq::<(Seq<char>, ConfigView)>::empty(), cur);
    assert(Seq::<(Seq<char>, ConfigView)>::empty().push(cur) =~= seq![cur]);
    reveal(Seq::filter);
    assert(named(Seq::<(Seq<char>, ConfigView)>::empty()) =~= Seq::<(Seq<char>, ConfigView)>::empty());
    assert(named(seq![cur]) =~= seq![cur]);
}

/// A task name found among those already read is the first clash of the
/// whole project.
proof fn lemma_clash_found(
    views: Seq<(Seq<char>, ConfigView)>,
    i: int,
    names_v: Seq<Seq<char>>,
    t: int,
    p: Seq<(Seq<char>, Seq<char>)>,
    k: int,
)
    requires
        0 <= i < views.len(),
        views[i].0.len() > 0,
        task_names_of(views[i].1) == names_v,
        0 <= t < names_v.len(),
        p == owned_names(named(views.take(i))) + names_v.take(t).map_values(
            |n: Seq<char>| (n, views[i].0),
        ),
        p.map_values(|q: (Seq<char>, Seq<char>)| q.0).no_duplicates(),
        0 <= k < p.len(),
        p[k].0 == names_v[t],
        forall|j: int| 0 <= j < k ==> p[j].0 != names_v[t],
    ensures
        first_clash(owned_names(named(views))) == Some((names_v[t], p[k].1, views[i].0)),
{
    let cur = views[i];
    let w = named(views.take(i));
    let r = named(views.skip(i + 1));
    lemma_named_split(views, i);
    lemma_owned_names_concat(w + seq![cur], r);
    lemma_owned_names_concat(w, seq![cur]);
    assert(seq![cur].drop_last() =~= Seq::<(Seq<char>, ConfigView)>::empty());
    assert(seq![cur].last() == cur);
    assert(owned_names(Seq::<(Seq<char>, ConfigView)>::empty()) =~= Seq::<(Seq<char>, Seq<char>)>::empty());
    assert(owned_names(seq![cur]) =~= owner_pairs(cur));
    let pairs = names_v.map_values(|n: Seq<char>| (n, cur.0));
    assert(owner_pairs(cur) =~= pairs);
    let full = owned_names(named(views));
    assert(full == owned_names(w) + pairs + owned_names(r));
    let x = (names_v[t], cur.0);
    let q = p.push(x);
    assert(full.take(p.len() as int + 1) =~= q) by {
        assert(pairs.take(t + 1) =~= names_v.take(t).map_values(|n: Seq<char>| (n, cur.0)).push(x));
    }
    lemma_no_clash(p);
    lemma_first_with_name_at(p, x.0, k);
    assert(q.drop_last() =~= p);
    assert(q[k] == p[k]);
    assert(first_clash(q) == Some((names_v[t], p[k].1, cur.0)));
    lemma_first_clash_prefix(full, p.len() as int + 1);
}

/// Assembling a project finds a clash exactly when some task name is
/// declared twice across its workflows.
pub proof fn law_clash_exactly_on_repeated_name(ws: Seq<(Seq<char>, ConfigView)>)
    ensures
        first_clash(owned_names(ws)) is None <==> all_task_names(ws).no_duplicates(),
{
    lemma_no_clash(owned_names(ws));
    lemma_all_names_owned(ws);
}

/// A project: its root directory, its `.pawl` directory and its workflows.
#[derive(Debug)]
pub struct Project {
    pub project_root: String,
    pub pawl_dir: String,
    workflows: IndexMap<String, Config>,
}

fn find_task(index: &Vec<(String, String)>, task: &String) -> (r: Option<usize>)
    ensures
        match r {
            Some(k) => k < index.len() && index@[k as int].0@ == task@ && forall|j: int|
                0 <= j < k ==> #[trigger] index@[j].0@ != task@,
            None => forall|k: int| 0 <= k < index.len() ==> #[trigger] index@[k].0@ != task@,
        },
{
    let mut k: usize = 0;
    while k < index.len()
        invariant
            k <= index.len(),
            forall|j: int| 0 <= j < k ==> #[trigger] index@[j].0@ != task@,
        decreases index.len() - k,
    {
        if str_eq(index[k].0.as_str(), task.as_str()) {
            return Some(k);
        }
        k = k + 1;
    }
    None
}

impl Project {
    /// The project root directory.
    pub closed spec fn root(&self) -> Seq<char> {
        self.project_root@
    }

    /// The project's `.pawl` directory.
    pub closed spec fn dir(&self) -> Seq<char> {
        self.pawl_dir@
    }

    /// The workflows, in the order they were read.
    pub closed spec fn entries(&self) -> Seq<(Seq<char>, ConfigView)> {
        workflow_entries(self.workflows)
    }

    /// Assembles a project from its workflows, given by file name in the
    /// order of their file names. A workflow without a name is left out.
    /// Task names must be unique across the workflows, and there must be
    /// at least one workflow.
    pub fn from_workflows(
        project_root: String,
        pawl_dir: String,
        loaded: Vec<(String, Config)>,
    ) -> (r: Result<Project, PawlError>)
        requires
            forall|i: int, j: int|
                0 <= i < j < loaded.len() ==> #[trigger] loaded@[i].0@ != #[trigger] loaded@[j].0@,
        ensures
            ({
                let ws = named(loaded@.map_values(|e: (String, Config)| (e.0@, e.1@)));
                match r {
                    Ok(p) => {
                        &&& p.root() == project_root@
                        &&& p.dir() == pawl_dir@
                        &&& p.entries() == ws
                        &&& ws.len() > 0
                        &&& first_clash(owned_names(ws)) is None
                        &&& all_task_names(ws).no_duplicates()
                    },
                    Err(PawlError::Validation { message }) => first_clash(owned_names(ws)) matches Some(c)
                        && message@ == clash_message(c.0, c.1, c.2),
                    Err(PawlError::NotFound { message }) => ws.len() == 0 && message@
                        == no_workflows_message(),
                    Err(_) => false,
                }
            }),
    {
        let ghost views = loaded@.map_values(|e: (String, Config)| (e.0@, e.1@));
        let mut workflows = workflows_new();
        let mut index: Vec<(String, String)> = Vec::new();
        let mut rest = loaded;
        let mut i: usize = 0;
        let n = rest.len();
        assert(named(views.take(0)) =~= Seq::<(Seq<char>, ConfigView)>::empty());
        while rest.len() > 0
            invariant
                views == loaded@.map_values(|e: (String, Config)| (e.0@, e.1@)),
                n == views.len(),
                rest.len() + i == n,
                forall|k: int| 0 <= k < rest.len() ==> (#[trigger] rest@[k].0@, rest@[k].1@) == views[i + k],
                forall|a: int, b: int|
                    0 <= a < b < n ==> #[trigger] views[a].0 != #[trigger] views[b].0,
                workflow_entries(workflows) == named(views.take(i as int)),
                index@.map_values(|e: (String, String)| e.0@) == all_task_names(workflow_entries(workflows)),
                all_task_names(workflow_entries(workflows)).no_duplicates(),
                pair_views(index@) == owned_names(workflow_entries(workflows)),
            decreases rest.len(),
        {
            let ghost cur = views[i as int];
            assert((rest@[0].0@, rest@[0].1@) == cur);
            let (wf_name, config) = rest.remove(0);
            assert(views.take(i + 1) =~= views.take(i as int).push(cur));
            proof {
                lemma_named_push(views.take(i as int), cur);
            }
            if wf_name.as_str().unicode_len() == 0 {
                i = i + 1;
                continue;
            }
            let names = config.task_names();
            let mut t: usize = 0;
            let ghost before = index@.map_values(|e: (String, String)| e.0@);
            let ghost wv = workflow_entries(workflows);
            let ghost names_v = names@.map_values(|s: String| s@);
            proof {
                assert((wf_name@, config@) == cur);
                assert(task_names_of(config@) =~= names_v);
                assert(names_v.take(0).map_values(|n: Seq<char>| (n, wf_name@)) =~= Seq::<(Seq<char>, Seq<char>)>::empty());
                assert(pair_views(index@) =~= owned_names(wv) + names_v.take(0).map_values(|n: Seq<char>| (n, wf_name@)));
            }
            while t < names.len()
                invariant
                    t <= names.len(),
                    names_v == names@.map_values(|s: String| s@),
                    views == loaded@.map_values(|e: (String, Config)| (e.0@, e.1@)),
                    0 <= i < views.len(),
                    views[i as int].0 == wf_name@,
                    wf_name@.len() > 0,
                    task_names_of(views[i as int].1) == names_v,
                    wv == named(views.take(i as int)),
                    index@.map_values(|e: (String, String)| e.0@) == before + names@.take(t as int).map_values(|s: String| s@),
                    (before + names@.take(t as int).map_values(|s: String| s@)).no_duplicates(),
                    pair_views(index@) == owned_names(wv) + names_v.take(t as int).map_values(|n: Seq<char>| (n, wf_name@)),
                decreases names.len() - t,
            {
                match find_task(&index, &names[t]) {
                    Some(k) => {
                        proof {
                            let pv = pair_views(index@);
                            assert(pv.map_values(|q: (Seq<char>, Seq<char>)| q.0) =~= index@.map_values(|e: (String, String)| e.0@));
                            assert(names_v[t as int] == names@[t as int]@);
                            assert forall|j: int| 0 <= j < k implies pv[j].0 != names_v[t as int] by {
                                assert(pv[j] == (index@[j].0@, index@[j].1@));
                                assert(index@[j].0@ != names@[t as int]@);
                            }
                            assert(pv[k as int] == (index@[k as int].0@, index@[k as int].1@));
                            lemma_clash_found(views, i as int, names_v, t as int, pv, k as int);
                        }
                        let mut m = owned("Task '");
                        m.append(names[t].as_str());
                        m.append("' declared in both '");
                        m.append(index[k].1.as_str());
                        m.append("' and '");
                        m.append(wf_name.as_str());
                        m.append("' workflows. Task names must be globally unique.");
                        assert(m@ == clash_message(names@[t as int]@, index@[k as int].1@, wf_name@));
                        assert(first_clash(owned_names(named(views))) == Some((names@[t as int]@, index@[k as int].1@, wf_name@)));
                        return Err(PawlError::Validation { message: m });
                    },
                    None => {
                        let ghost old_idx = index@.map_values(|e: (String, String)| e.0@);
                        let ghost old_pairs = pair_views(index@);
                        index.push((names[t].clone(), wf_name.clone()));
                        proof {
                            assert(index@.map_values(|e: (String, String)| e.0@) =~= old_idx.push(names@[t as int]@));
                            assert(names@.take(t + 1).map_values(|s: String| s@) =~= names@.take(t as int).map_values(|s: String| s@).push(names@[t as int]@));
                            assert(names_v.take(t + 1).map_values(|n: Seq<char>| (n, wf_name@)) =~= names_v.take(t as int).map_values(|n: Seq<char>| (n, wf_name@)).push((names@[t as int]@, wf_name@)));
                            assert(pair_views(index@) =~= old_pairs.push((names@[t as int]@, wf_name@)));
                            assert(pair_views(index@) =~= owned_names(wv) + names_v.take(t + 1).map_values(|n: Seq<char>| (n, wf_name@)));
                            assert forall|k: int| 0 <= k < old_idx.len() implies old_idx[k] != names@[t as int]@ by {
                                assert(old_idx[k] == index@[k].0@);
                            }
                        }
                        t = t + 1;
                    },
                }
            }
            proof {
                assert(names@.take(t as int) =~= names@);
            }
            let ghost old_entries = workflow_entries(workflows);
            proof {
                assert forall|k: int| 0 <= k < old_entries.len() implies #[trigger] old_entries[k].0 != wf_name@ by {
                    lemma_named_from(views.take(i as int), k);
                    let j = choose|j: int| 0 <= j < i && views.take(i as int)[j] == old_entries[k];
                    assert(views[j].0 != views[i as int].0);
                }
            }
            let ghost wname = wf_name@;
            let ghost cview = config@;
            workflows_insert(&mut workflows, wf_name, config);
            proof {
                assert(workflow_entries(workflows).drop_last() =~= old_entries);
                assert(task_names_of(cview) =~= names@.map_values(|s: String| s@));
                assert(names_v.take(names_v.len() as int) =~= names_v);
                assert(owner_pairs((wname, cview)) =~= names_v.map_values(|n: Seq<char>| (n, wname)));
                assert(workflow_entries(workflows).last() == (wname, cview));
                assert(pair_views(index@) == owned_names(workflow_entries(workflows)));
            }
            i = i + 1;
        }
        assert(views.take(i as int) =~= views);
        proof {
            assert(pair_views(index@).map_values(|q: (Seq<char>, Seq<char>)| q.0) =~= index@.map_values(|e: (String, String)| e.0@));
            lemma_no_clash(pair_views(index@));
        }
        if workflows_len(&workflows) == 0 {
            return Err(PawlError::NotFound { message: owned("No workflow files found in .pawl/workflows/. Run 'pawl init' first.") });
        }
        Ok(Project { project_root, pawl_dir, workflows })
    }
}

/// The name of step `idx` of the workflow a task runs under, or "done"
/// past the last step or when the task has no workflow.
pub open spec fn step_name_of(ws: Seq<(Seq<char>, ConfigView)>, task: Seq<char>, idx: nat) -> Seq<char> {
    match workflow_index(ws, task) {
        Some(i) => if idx < ws[i].1.workflow.len() {
            ws[i].1.workflow[idx as int].name@
        } else {
            "done"@
        },
        None => "done"@,
    }
}

/// The path of a task's event log.
pub open spec fn log_file_of(dir: Seq<char>, task: Seq<char>) -> Seq<char> {
    dir + "/logs/"@ + task + ".jsonl"@
}

/// The path of a task's live output stream.
pub open spec fn stream_file_of(dir: Seq<char>, task: Seq<char>) -> Seq<char> {
    dir + "/streams/"@ + task + ".stream"@
}

/// `${step}`: the name of the step, or empty.
pub open spec fn step_var(c: ConfigView, step_idx: Option<usize>) -> Seq<char> {
    match step_idx {
        Some(i) => if i < c.workflow.len() {
            c.workflow[i as int].name@
        } else {
            Seq::empty()
        },
        None => Seq::empty(),
    }
}

/// `${step_index}`: the index in decimal, or empty.
pub open spec fn step_index_var(step_idx: Option<usize>) -> Seq<char> {
    match step_idx {
        Some(i) => decimal(i as int),
        None => Seq::empty(),
    }
}

/// The user variables appended one by one, each expanded with the
/// bindings before it.
pub open spec fn user_vars_fold(
    base: Seq<(Seq<char>, Seq<char>)>,
    vars: Seq<(Seq<char>, Seq<char>)>,
) -> Seq<(Seq<char>, Seq<char>)>
    decreases vars.len(),
{
    if vars.len() == 0 {
        base
    } else {
        let b = user_vars_fold(base, vars.drop_last());
        b.push((vars.last().0, expand_spec(b, vars.last().1)))
    }
}

/// The workflow whose variables a task's commands see: its own, else the
/// first one.
pub open spec fn context_workflow(ws: Seq<(Seq<char>, ConfigView)>, task: Seq<char>) -> int {
    match workflow_index(ws, task) {
        Some(i) => i,
        None => 0,
    }
}

/// The bindings of a task's commands: the intrinsic variables, then the
/// workflow's user variables in definition order.
pub open spec fn context_of(
    root: Seq<char>,
    dir: Seq<char>,
    ws: Seq<(Seq<char>, ConfigView)>,
    task: Seq<char>,
    step_idx: Option<usize>,
    run_id: Seq<char>,
) -> Seq<(Seq<char>, Seq<char>)> {
    let e = ws[context_workflow(ws, task)];
    user_vars_fold(
        seq![
            ("task"@, task),
            ("workflow"@, e.0),
            ("session"@, session_name_of(e.1.session, root)),
            ("project_root"@, root),
            ("step"@, step_var(e.1, step_idx)),
            ("step_index"@, step_index_var(step_idx)),
            ("log_file"@, log_file_of(dir, task)),
            ("run_id"@, run_id),
        ],
        e.1.vars,
    )
}

/// The bindings a hook sees: the task's context, the retry context of the
/// event's step, the event's own variables and its duration.
pub open spec fn hook_vars(
    ctx: Seq<(Seq<char>, Seq<char>)>,
    event: Event,
    events: Seq<Event>,
    duration: Option<Seq<char>>,
) -> Seq<(Seq<char>, Seq<char>)> {
    ctx + match step_of(event) {
        Some(si) => seq![("retry_count"@, decimal(auto_retries(events, si) as int))] + match last_feedback(
            events,
            si,
        ) {
            Some(f) => seq![("last_verify_output"@, f)],
            None => Seq::empty(),
        },
        None => Seq::empty(),
    } + extra_vars_of(event) + match duration {
        Some(d) => seq![("duration"@, d)],
        None => Seq::empty(),
    }
}

fn path_in(dir: &String, sub: &str, task: &str, ext: &str) -> (r: String)
    ensures
        r@ == dir@ + sub@ + task@ + ext@,
{
    let mut r = dir.clone();
    r.append(sub);
    r.append(task);
    r.append(ext);
    r
}

fn tasks_contain(c: &Config, task: &str) -> (b: bool)
    ensures
        b == declares(c@, task@),
{
    let r = c.task_config(task);
    proof {
        let tn = task_names_of(c@);
        match r {
            Some(t) => {
                let a = choose|a: int| 0 <= a < c@.tasks.len() && #[trigger] c@.tasks[a] == (task@, t@);
                assert(tn[a] == task@);
            },
            None => {
                assert forall|a: int| 0 <= a < tn.len() implies tn[a] != task@ by {
                    assert(c@.tasks[a].0 != task@);
                }
            },
        }
    }
    r.is_some()
}

impl Project {
    /// The workflow a task runs under, with its name: the one that declares
    /// the task, else the only workflow of the project.
    pub fn workflow_for(&self, task: &str) -> (r: Result<(&String, &Config), PawlError>)
        ensures
            match workflow_index(self.entries(), task@) {
                Some(i) => r matches Ok((n, c)) && (n@, c@) == self.entries()[i],
                None => r matches Err(PawlError::NotFound { message }) && message@
                    == undeclared_message(task@),
            },
    {
        let n = workflows_len(&self.workflows);
        let mut i: usize = 0;
        while i < n
            invariant
                i <= n,
                n == self.entries().len(),
                first_declaring(self.entries().take(i as int), task@) is None,
            decreases n - i,
        {
            let (name, config) = workflow_at(&self.workflows, i);
            proof {
                assert(self.entries().take(i + 1).drop_last() =~= self.entries().take(i as int));
            }
            if tasks_contain(config, task) {
                proof {
                    lemma_first_declaring_prefix(self.entries(), task@, i + 1);
                }
                return Ok((name, config));
            }
            i = i + 1;
        }
        assert(self.entries().take(n as int) =~= self.entries());
        if n == 1 {
            return Ok(workflow_at(&self.workflows, 0));
        }
        let mut m = owned("Task '");
        m.append(task);
        m.append(
            "' not declared in any workflow. With multiple workflows, all tasks must be declared.",
        );
        Err(PawlError::NotFound { message: m })
    }

    /// The name of a step of a task's workflow; "done" past the last step.
    pub fn step_name(&self, task: &str, step_idx: usize) -> (r: String)
        ensures
            r@ == step_name_of(self.entries(), task@, step_idx as nat),
    {
        match self.workflow_for(task) {
            Ok((_, config)) => if step_idx < config.workflow.len() {
                config.workflow[step_idx].name.clone()
            } else {
                owned("done")
            },
            Err(_) => owned("done"),
        }
    }

    /// The declaration of a task, from the workflow that declares it.
    pub fn task_config(&self, name: &str) -> (r: Option<&TaskConfig>)
        ensures
            match first_declaring(self.entries(), name@) {
                Some(i) => r matches Some(t) && self.entries()[i].1.tasks.contains((name@, t@)),
                None => r is None,
            },
    {
        let n = workflows_len(&self.workflows);
        let mut i: usize = 0;
        while i < n
            invariant
                i <= n,
                n == self.entries().len(),
                first_declaring(self.entries().take(i as int), name@) is None,
            decreases n - i,
        {
            let (_, config) = workflow_at(&self.workflows, i);
            proof {
                assert(self.entries().take(i + 1).drop_last() =~= self.entries().take(i as int));
            }
            let found = config.task_config(name);
            proof {
                let tn = task_names_of(config@);
                match found {
                    Some(t) => {
                        let a = choose|a: int|
                            0 <= a < config@.tasks.len() && #[trigger] config@.tasks[a] == (name@, t@);
                        assert(tn[a] == name@);
                        assert(config@.tasks.contains((name@, t@)));
                        lemma_first_declaring_prefix(self.entries(), name@, i + 1);
                    },
                    None => {
                        assert forall|a: int| 0 <= a < tn.len() implies tn[a] != name@ by {
                            assert(config@.tasks[a].0 != name@);
                        }
                    },
                }
            }
            if found.is_some() {
                return found;
            }
            i = i + 1;
        }
        assert(self.entries().take(n as int) =~= self.entries());
        None
    }

    /// The session name of a task's workflow.
    pub fn session_name_for(&self, task: &str) -> (r: Result<String, PawlError>)
        ensures
            match workflow_index(self.entries(), task@) {
                Some(i) => r matches Ok(s) && s@ == session_name_of(
                    self.entries()[i].1.session,
                    self.root(),
                ),
                None => r matches Err(PawlError::NotFound { message }) && message@
                    == undeclared_message(task@),
            },
    {
        let (_, config) = self.workflow_for(task)?;
        Ok(config.session_name(self.project_root.as_str()))
    }

    /// The path of a task's event log.
    pub fn log_file(&self, task: &str) -> (r: String)
        ensures
            r@ == log_file_of(self.dir(), task@),
    {
        path_in(&self.pawl_dir, "/logs/", task, ".jsonl")
    }

    /// The path of a task's live output stream.
    pub fn stream_file(&self, task: &str) -> (r: String)
        ensures
            r@ == stream_file_of(self.dir(), task@),
    {
        path_in(&self.pawl_dir, "/streams/", task, ".stream")
    }

    /// The variables a task's commands see: the intrinsic ones, then the
    /// workflow's user variables, each expanded with those before it.
    pub fn context_for(&self, task: &str, step_idx: Option<usize>, run_id: &str) -> (c: Context)
        requires
            self.entries().len() > 0,
        ensures
            c@ == context_of(self.root(), self.dir(), self.entries(), task@, step_idx, run_id@),
    {
        proof {
            lemma_first_declaring_bound(self.entries(), task@);
        }
        let (wf_name, config) = match self.workflow_for(task) {
            Ok(p) => p,
            Err(_) => workflow_at(&self.workflows, 0),
        };
        assert((wf_name@, config@) == self.entries()[context_workflow(self.entries(), task@)]);
        let step_name: String = match step_idx {
            Some(i) => if i < config.workflow.len() {
                config.workflow[i].name.clone()
            } else {
                String::new()
            },
            None => String::new(),
        };
        let step_index: String = match step_idx {
            Some(i) => usize_to_decimal(i),
            None => String::new(),
        };
        let session = config.session_name(self.project_root.as_str());
        let log_file = self.log_file(task);
        let mut ctx = Context::build().var("task", task).var("workflow", wf_name.as_str()).var_owned(
            owned("session"),
            session,
        ).var("project_root", self.project_root.as_str()).var_owned(owned("step"), step_name).var_owned(
            owned("step_index"),
            step_index,
        ).var_owned(owned("log_file"), log_file).var("run_id", run_id);
        let ghost e = self.entries()[context_workflow(self.entries(), task@)];
        let ghost base = ctx@;
        assert(base =~= seq![
            ("task"@, task@),
            ("workflow"@, e.0),
            ("session"@, session_name_of(e.1.session, self.root())),
            ("project_root"@, self.root()),
            ("step"@, step_var(e.1, step_idx)),
            ("step_index"@, step_index_var(step_idx)),
            ("log_file"@, log_file_of(self.dir(), task@)),
            ("run_id"@, run_id@),
        ]);
        let vars = config.var_list();
        let mut i: usize = 0;
        assert(e.1.vars.take(0) =~= Seq::<(Seq<char>, Seq<char>)>::empty());
        while i < vars.len()
            invariant
                i <= vars.len(),
                pair_views(vars@) == e.1.vars,
                ctx@ == user_vars_fold(base, e.1.vars.take(i as int)),
            decreases vars.len() - i,
        {
            let expanded = ctx.expand(vars[i].1.as_str());
            ctx = ctx.var_owned(vars[i].0.clone(), expanded);
            proof {
                assert(e.1.vars.take(i + 1).drop_last() =~= e.1.vars.take(i as int));
            }
            i = i + 1;
        }
        assert(e.1.vars.take(i as int) =~= e.1.vars);
        ctx
    }

    /// The variables a step's commands see: the task's context, then
    /// `${retry_count}` and, after a failure with output, `${last_verify_output}`.
    pub fn step_context(&self, task: &str, step_idx: usize, run_id: &str, events: &[Event]) -> (c:
        Context)
        requires
            self.entries().len() > 0,
        ensures
            c@ == context_of(self.root(), self.dir(), self.entries(), task@, Some(step_idx), run_id@)
                + seq![("retry_count"@, decimal(auto_retries(events@, step_idx) as int))]
                + match last_feedback(events@, step_idx) {
                Some(f) => seq![("last_verify_output"@, f)],
                None => Seq::empty(),
            },
    {
        let mut ctx = self.context_for(task, Some(step_idx), run_id);
        let ghost c0 = ctx@;
        let (retry_count, last) = extract_step_context(events, step_idx);
        ctx = ctx.var_owned(owned("retry_count"), usize_to_decimal(retry_count));
        if let Some(fb) = last {
            ctx = ctx.var_owned(owned("last_verify_output"), fb);
        }
        assert(ctx@ =~= c0 + seq![("retry_count"@, decimal(auto_retries(events@, step_idx) as int))]
            + match last_feedback(events@, step_idx) {
            Some(f) => seq![("last_verify_output"@, f)],
            None => Seq::empty(),
        });
        ctx
    }

    /// The command of the hook an event fires, with its variables expanded:
    /// the task's context, `${retry_count}` and `${last_verify_output}` for
    /// the event's step, the event's own variables and its formatted
    /// duration. None when the task has no workflow or the workflow has no
    /// hook for this kind of event.
    pub fn hook_command(
        &self,
        task: &str,
        event: &Event,
        run_id: &str,
        events: &[Event],
        duration: Option<String>,
    ) -> (r: Option<String>)
        requires
            self.entries().len() > 0,
        ensures
            match workflow_index(self.entries(), task@) {
                Some(i) => if self.entries()[i].1.on.contains_key(type_tag_of(*event)) {
                    r matches Some(cmd) && cmd@ == expand_spec(
                        hook_vars(
                            context_of(
                                self.root(),
                                self.dir(),
                                self.entries(),
                                task@,
                                step_of(*event),
                                run_id@,
                            ),
                            *event,
                            events@,
                            opt_view(duration),
                        ),
                        self.entries()[i].1.on[type_tag_of(*event)],
                    )
                } else {
                    r is None
                },
                None => r is None,
            },
    {
        let tag = event.type_tag();
        let config = match self.workflow_for(task) {
            Ok((_, c)) => c,
            Err(_) => return None,
        };
        let cmd = match config.hook_for(tag) {
            Some(c) => c,
            None => return None,
        };
        let ghost dv = opt_view(duration);
        let step_idx = event.step_index();
        let mut ctx = self.context_for(task, step_idx, run_id);
        let ghost c0 = ctx@;
        if let Some(si) = step_idx {
            let (retry_count, last) = extract_step_context(events, si);
            ctx = ctx.var_owned(owned("retry_count"), usize_to_decimal(retry_count));
            if let Some(fb) = last {
                ctx = ctx.var_owned(owned("last_verify_output"), fb);
            }
        }
        let ghost c1 = ctx@;
        ctx.extend(event.extra_vars());
        let mut more: Vec<(String, String)> = Vec::new();
        if let Some(d) = duration {
            more.push((owned("duration"), d));
        }
        ctx.extend(more);
        proof {
            let h = hook_vars(c0, *event, events@, dv);
            assert(ctx@ =~= h);
        }
        Some(ctx.expand(cmd.as_str()))
    }
}

// ---------------------------------------------------------------------------
// Task names: discovery, order and lookup by position
// ---------------------------------------------------------------------------

/// `a` sorts before `b`: the order of `String`, which compares UTF-8 bytes
/// and so orders by code points.
pub open spec fn lex_lt(a: Seq<char>, b: Seq<char>) -> bool
    decreases a.len(),
{
    if a.len() == 0 {
        b.len() > 0
    } else if b.len() == 0 {
        false
    } else if a[0] != b[0] {
        a[0] < b[0]
    } else {
        lex_lt(a.drop_first(), b.drop_first())
    }
}

/// Strictly increasing: sorted, with nothing twice.
pub open spec fn strictly_sorted(v: Seq<Seq<char>>) -> bool {
    forall|i: int, j: int| 0 <= i < j < v.len() ==> lex_lt(#[trigger] v[i], #[trigger] v[j])
}

proof fn lemma_lex_trichotomy(a: Seq<char>, b: Seq<char>)
    ensures
        a == b || lex_lt(a, b) || lex_lt(b, a),
        !(lex_lt(a, b) && lex_lt(b, a)),
        !lex_lt(a, a),
    decreases a.len(),
{
    if a.len() > 0 && b.len() > 0 && a[0] == b[0] {
        lemma_lex_trichotomy(a.drop_first(), b.drop_first());
        if a.drop_first() == b.drop_first() {
            assert forall|i: int| 0 <= i < a.len() implies a[i] == b[i] by {
                if i > 0 {
                    assert(a[i] == a.drop_first()[i - 1]);
                    assert(b[i] == b.drop_first()[i - 1]);
                }
            }
            assert(a =~= b);
        }
    }
    if a.len() > 0 {
        lemma_lex_trichotomy(a.drop_first(), a.drop_first());
    }
    if a.len() == 0 && b.len() == 0 {
        assert(a =~= b);
    }
}

proof fn lemma_lex_transitive(a: Seq<char>, b: Seq<char>, c: Seq<char>)
    requires
        lex_lt(a, b),
        lex_lt(b, c),
    ensures
        lex_lt(a, c),
    decreases a.len(),
{
    if a.len() > 0 && b.len() > 0 && c.len() > 0 && a[0] == b[0] && b[0] == c[0] {
        lemma_lex_transitive(a.drop_first(), b.drop_first(), c.drop_first());
    }
}

proof fn lemma_push_contains(s: Seq<Seq<char>>, a: Seq<char>)
    ensures
        forall|x: Seq<char>| #[trigger] s.push(a).contains(x) <==> (s.contains(x) || x == a),
{
    assert forall|x: Seq<char>| #[trigger] s.push(a).contains(x) <==> (s.contains(x) || x == a) by {
        if s.push(a).contains(x) {
            let k = choose|k: int| 0 <= k < s.push(a).len() && s.push(a)[k] == x;
            if k < s.len() {
                assert(s[k] == x);
            }
        }
        if s.contains(x) {
            let k = choose|k: int| 0 <= k < s.len() && s[k] == x;
            assert(s.push(a)[k] == x);
        }
        if x == a {
            assert(s.push(a)[s.len() as int] == x);
        }
    }
}

proof fn lemma_concat_contains(a: Seq<Seq<char>>, b: Seq<Seq<char>>)
    ensures
        forall|x: Seq<char>| #[trigger] (a + b).contains(x) <==> (a.contains(x) || b.contains(x)),
{
    assert forall|x: Seq<char>| #[trigger] (a + b).contains(x) <==> (a.contains(x) || b.contains(x)) by {
        let t = a + b;
        if t.contains(x) {
            let j = choose|j: int| 0 <= j < t.len() && t[j] == x;
            if j < a.len() {
                assert(a[j] == x);
            } else {
                assert(b[j - a.len()] == x);
            }
        }
        if a.contains(x) {
            let j = choose|j: int| 0 <= j < a.len() && a[j] == x;
            assert(t[j] == x);
        }
        if b.contains(x) {
            let j = choose|j: int| 0 <= j < b.len() && b[j] == x;
            assert(t[a.len() + j] == x);
        }
    }
}

fn lex_less(a: &str, b: &str) -> (r: bool)
    ensures
        r == lex_lt(a@, b@),
{
    let x = crate::text::chars_of(a);
    let y = crate::text::chars_of(b);
    let mut i: usize = 0;
    assert(a@.skip(0) =~= a@);
    assert(b@.skip(0) =~= b@);
    while i < x.len() && i < y.len()
        invariant
            i <= x.len(),
            i <= y.len(),
            lex_lt(a@, b@) == lex_lt(a@.skip(i as int), b@.skip(i as int)),
            x@ == a@,
            y@ == b@,
        decreases x.len() - i,
    {
        assert(a@.skip(i as int)[0] == x@[i as int]);
        assert(b@.skip(i as int)[0] == y@[i as int]);
        if x[i] != y[i] {
            return x[i] < y[i];
        }
        assert(a@.skip(i as int).drop_first() =~= a@.skip(i + 1));
        assert(b@.skip(i as int).drop_first() =~= b@.skip(i + 1));
        i = i + 1;
    }
    i < y.len()
}

/// Adds a name to a strictly sorted list, unless it is there already.
fn insert_sorted(v: &mut Vec<String>, s: &String)
    requires
        strictly_sorted(string_views(old(v)@)),
    ensures
        strictly_sorted(string_views(final(v)@)),
        forall|x: Seq<char>|
            #[trigger] string_views(final(v)@).contains(x) <==> (string_views(old(v)@).contains(x) || x == s@),
{
    let ghost ov = string_views(v@);
    let mut p: usize = 0;
    while p < v.len() && lex_less(v[p].as_str(), s.as_str())
        invariant
            p <= v.len(),
            string_views(v@) == ov,
            forall|i: int| 0 <= i < p ==> lex_lt(#[trigger] ov[i], s@),
        decreases v.len() - p,
    {
        p = p + 1;
    }
    if p < v.len() && str_eq(v[p].as_str(), s.as_str()) {
        assert(ov[p as int] == s@);
        return;
    }
    proof {
        if p < v.len() {
            lemma_lex_trichotomy(ov[p as int], s@);
            assert forall|k: int| p <= k < ov.len() implies lex_lt(s@, #[trigger] ov[k]) by {
                if k > p {
                    lemma_lex_transitive(s@, ov[p as int], ov[k]);
                }
            }
        }
    }
    v.insert(p, s.clone());
    proof {
        let nv = string_views(v@);
        assert(nv =~= ov.insert(p as int, s@));
        assert forall|i: int, j: int| 0 <= i < j < nv.len() implies lex_lt(#[trigger] nv[i], #[trigger] nv[j]) by {
            if j < p {
            } else if j == p {
            } else if i < p {
                assert(lex_lt(s@, ov[j - 1]));
                lemma_lex_transitive(nv[i], s@, nv[j]);
            } else if i == p {
                assert(lex_lt(s@, ov[j - 1]));
            } else {
            }
        }
        assert forall|x: Seq<char>| #[trigger] nv.contains(x) <==> (ov.contains(x) || x == s@) by {
            if nv.contains(x) {
                let k = choose|k: int| 0 <= k < nv.len() && nv[k] == x;
                if k < p {
                    assert(ov[k] == x);
                } else if k > p {
                    assert(ov[k - 1] == x);
                }
            }
            if ov.contains(x) {
                let k = choose|k: int| 0 <= k < ov.len() && ov[k] == x;
                if k < p {
                    assert(nv[k] == x);
                } else {
                    assert(nv[k + 1] == x);
                }
            }
            if x == s@ {
                assert(nv[p as int] == x);
            }
        }
    }
}

impl Project {
    /// Every task the project knows of: those its workflows declare and
    /// those with an event log, sorted by name, each once.
    pub fn discover_tasks(&self, log_stems: &Vec<String>) -> (r: Vec<String>)
        ensures
            strictly_sorted(string_views(r@)),
            forall|x: Seq<char>|
                #[trigger] string_views(r@).contains(x) <==> (all_task_names(
                    self.entries(),
                ).contains(x) || string_views(log_stems@).contains(x)),
    {
        let mut r: Vec<String> = Vec::new();
        let n = workflows_len(&self.workflows);
        let mut i: usize = 0;
        assert(all_task_names(self.entries().take(0)) =~= Seq::<Seq<char>>::empty());
        while i < n
            invariant
                i <= n,
                n == self.entries().len(),
                strictly_sorted(string_views(r@)),
                forall|x: Seq<char>|
                    #[trigger] string_views(r@).contains(x) <==> all_task_names(
                        self.entries().take(i as int),
                    ).contains(x),
            decreases n - i,
        {
            let (_, config) = workflow_at(&self.workflows, i);
            let names = config.task_names();
            let ghost before = all_task_names(self.entries().take(i as int));
            let mut k: usize = 0;
            while k < names.len()
                invariant
                    k <= names.len(),
                    strictly_sorted(string_views(r@)),
                    forall|x: Seq<char>|
                        #[trigger] string_views(r@).contains(x) <==> (before.contains(x)
                            || string_views(names@.take(k as int)).contains(x)),
                decreases names.len() - k,
            {
                insert_sorted(&mut r, &names[k]);
                proof {
                    assert(string_views(names@.take(k + 1)) =~= string_views(names@.take(
                        k as int,
                    )).push(names@[k as int]@));
                    lemma_push_contains(string_views(names@.take(k as int)), names@[k as int]@);
                }
                k = k + 1;
            }
            proof {
                assert(names@.take(k as int) =~= names@);
                assert(self.entries().take(i + 1).drop_last() =~= self.entries().take(i as int));
                assert(task_names_of(config@) =~= string_views(names@));
                assert(all_task_names(self.entries().take(i + 1)) == before + string_views(names@));
                lemma_concat_contains(before, string_views(names@));
            }
            i = i + 1;
        }
        assert(self.entries().take(n as int) =~= self.entries());
        let ghost declared = string_views(r@);
        let mut k: usize = 0;
        while k < log_stems.len()
            invariant
                k <= log_stems.len(),
                strictly_sorted(string_views(r@)),
                forall|x: Seq<char>|
                    #[trigger] string_views(r@).contains(x) <==> (all_task_names(
                        self.entries(),
                    ).contains(x) || string_views(log_stems@.take(k as int)).contains(
                        x,
                    )),
            decreases log_stems.len() - k,
        {
            insert_sorted(&mut r, &log_stems[k]);
            proof {
                assert(string_views(log_stems@.take(k + 1)) =~= string_views(log_stems@.take(
                    k as int,
                )).push(log_stems@[k as int]@));
                lemma_push_contains(string_views(log_stems@.take(k as int)), log_stems@[k as int]@);
            }
            k = k + 1;
        }
        assert(log_stems@.take(k as int) =~= log_stems@);
        r
    }
}

/// A task named by its 1-based position in the sorted list of tasks, or
/// by name: the name, or the error for a position out of range.
pub open spec fn resolved_name(name_or_index: Seq<char>, tasks: Seq<Seq<char>>) -> Result<
    Seq<char>,
    Seq<char>,
> {
    match parsed_usize(name_or_index) {
        Some(index) => if index == 0 || index > tasks.len() {
            Err(
                "Task index "@ + decimal(index as int) + " out of range. Have "@ + decimal(
                    tasks.len() as int,
                ) + " tasks."@,
            )
        } else {
            Ok(tasks[index - 1])
        },
        None => Ok(name_or_index),
    }
}

/// Resolves a task given by name or by 1-based position among `tasks`
/// (the discovered tasks, in order).
pub fn resolve_task_name(name_or_index: &str, tasks: &Vec<String>) -> (r: Result<String, PawlError>)
    ensures
        match resolved_name(name_or_index@, string_views(tasks@)) {
            Ok(n) => r matches Ok(s) && s@ == n,
            Err(m) => r matches Err(PawlError::NotFound { message }) && message@ == m,
        },
{
    match parse_usize(name_or_index) {
        Some(index) => {
            if index == 0 || index > tasks.len() {
                let mut m = owned("Task index ");
                m.append(usize_to_decimal(index).as_str());
                m.append(" out of range. Have ");
                m.append(usize_to_decimal(tasks.len()).as_str());
                m.append(" tasks.");
                Err(PawlError::NotFound { message: m })
            } else {
                Ok(tasks[index - 1].clone())
            }
        },
        None => Ok(owned(name_or_index)),
    }
}

/// The dependencies that keep a task from starting: those not completed,
/// in order.
pub open spec fn blocking(depends: Seq<Seq<char>>, statuses: Seq<Option<TaskStatus>>) -> Seq<
    Seq<char>,
>
    decreases depends.len(),
{
    if depends.len() == 0 {
        seq![]
    } else {
        let rest = blocking(depends.drop_last(), statuses.take(depends.len() - 1));
        if statuses[depends.len() - 1] == Some(TaskStatus::Completed) {
            rest
        } else {
            rest.push(depends.last())
        }
    }
}

/// The dependencies of a task that are not completed, given the status of
/// each (none for a task never started).
pub fn blocking_of(depends: &Vec<String>, statuses: &Vec<Option<TaskStatus>>) -> (r: Vec<String>)
    requires
        statuses.len() == depends.len(),
    ensures
        string_views(r@) == blocking(string_views(depends@), statuses@),
{
    let ghost dv = string_views(depends@);
    let mut r: Vec<String> = Vec::new();
    let mut i: usize = 0;
    while i < depends.len()
        invariant
            i <= depends.len(),
            statuses.len() == depends.len(),
            dv == string_views(depends@),
            string_views(r@) == blocking(dv.take(i as int), statuses@.take(i as int)),
        decreases depends.len() - i,
    {
        proof {
            assert(dv.take(i + 1).drop_last() =~= dv.take(i as int));
            assert(statuses@.take(i + 1).take(i as int) =~= statuses@.take(i as int));
        }
        let done = match statuses[i] {
            Some(TaskStatus::Completed) => true,
            _ => false,
        };
        if !done {
            r.push(depends[i].clone());
        }
        proof {
            assert(string_views(r@) =~= blocking(dv.take(i + 1), statuses@.take(i + 1)));
        }
        i = i + 1;
    }
    assert(dv.take(i as int) =~= dv);
    assert(statuses@.take(i as int) =~= statuses@);
    r
}

/// A task is blocked exactly while one of its dependencies is not
/// completed: it may start once every dependency has completed.
pub proof fn law_blocked_until_dependencies_complete(
    deps: Seq<Seq<char>>,
    statuses: Seq<Option<TaskStatus>>,
)
    requires
        deps.len() == statuses.len(),
    ensures
        blocking(deps, statuses).len() == 0 <==> forall|i: int|
            0 <= i < statuses.len() ==> #[trigger] statuses[i] == Some(TaskStatus::Completed),
    decreases deps.len(),
{
    if deps.len() > 0 {
        let n = deps.len() - 1;
        law_blocked_until_dependencies_complete(deps.drop_last(), statuses.take(n));
        lemma_blocking_len(deps.drop_last(), statuses.take(n));
        if blocking(deps, statuses).len() == 0 {
            assert forall|i: int| 0 <= i < statuses.len() implies #[trigger] statuses[i] == Some(
                TaskStatus::Completed,
            ) by {
                if i < n {
                    assert(statuses.take(n)[i] == statuses[i]);
                }
            }
        }
        if forall|i: int| 0 <= i < statuses.len() ==> #[trigger] statuses[i] == Some(TaskStatus::Completed) {
            assert forall|i: int| 0 <= i < statuses.take(n).len() implies #[trigger] statuses.take(n)[i] == Some(
                TaskStatus::Completed,
            ) by {
                assert(statuses.take(n)[i] == statuses[i]);
            }
        }
    }
}

proof fn lemma_blocking_len(deps: Seq<Seq<char>>, statuses: Seq<Option<TaskStatus>>)
    ensures
        blocking(deps, statuses).len() <= deps.len(),
    decreases deps.len(),
{
    if deps.len() > 0 {
        lemma_blocking_len(deps.drop_last(), statuses.take(deps.len() - 1));
    }
}

proof fn lemma_declared_name_listed(ws: Seq<(Seq<char>, ConfigView)>, k: int, t: Seq<char>)
    requires
        0 <= k < ws.len(),
        declares(ws[k].1, t),
    ensures
        all_task_names(ws).contains(t),
    decreases ws.len(),
{
    let a = all_task_names(ws.drop_last());
    let b = task_names_of(ws.last().1);
    lemma_concat_contains(a, b);
    if k < ws.len() - 1 {
        lemma_declared_name_listed(ws.drop_last(), k, t);
    }
}

/// With task names unique across workflows, the workflow that declares a
/// task is the one a task runs under: no other workflow can claim it.
pub proof fn law_one_workflow_per_task(ws: Seq<(Seq<char>, ConfigView)>, j: int, t: Seq<char>)
    requires
        all_task_names(ws).no_duplicates(),
        0 <= j < ws.len(),
        declares(ws[j].1, t),
    ensures
        first_declaring(ws, t) == Some(j),
        workflow_index(ws, t) == Some(j),
    decreases ws.len(),
{
    let n = ws.len() - 1;
    let d = ws.drop_last();
    let a = all_task_names(d);
    let b = task_names_of(ws.last().1);
    assert(all_task_names(ws) == a + b);
    assert(a.no_duplicates()) by {
        assert forall|x: int, y: int| 0 <= x < a.len() && 0 <= y < a.len() && x != y implies a[x] != a[y] by {
            assert((a + b)[x] == a[x]);
            assert((a + b)[y] == a[y]);
        }
    }
    if j < n {
        assert(d[j] == ws[j]);
        law_one_workflow_per_task(d, j, t);
    } else {
        lemma_first_declaring_bound(d, t);
        if first_declaring(d, t) is Some {
            let k = first_declaring(d, t)->0;
            assert(d[k] == ws[k]);
            lemma_declared_name_listed(d, k, t);
            let x = choose|x: int| 0 <= x < a.len() && a[x] == t;
            let y = choose|y: int| 0 <= y < b.len() && b[y] == t;
            assert((a + b)[x] == t);
            assert((a + b)[a.len() + y] == t);
            assert(false);
        }
    }
}

} // verus!
