//! Task definitions: markdown files with an optional frontmatter block
//! that gives the task's name, dependencies and skipped steps.
use vstd::prelude::*;

use crate::text::{
    chars_of, ends_with, ends_with_vec, find, find_vec, index_of, index_of_vec, lines, lines_vec,
    slice, split, split_vec, starts_with, starts_with_vec, string_of, trim, trim_start,
    trim_start_char, trim_start_char_vec, trim_start_vec, trim_vec, vec_eq, views,
};

verus! {

/// A task, parsed from its markdown file.
#[derive(Debug, Clone)]
pub struct TaskDefinition {
    /// Task name (from the frontmatter, else the file name).
    pub name: String,
    /// Names of tasks this one depends on.
    pub depends: Vec<String>,
    /// The task's name; where the frontmatter gives none, the caller supplies it.
    pub skip: Vec<String>,
    /// The markdown body.
    pub description: String,
}

/// Why a task file cannot be parsed.
#[derive(Debug, Clone, PartialEq, Eq)]
pub enum TaskParseError {
    /// The frontmatter opens with `---` but never closes.
    UnclosedFrontmatter,
}

impl TaskParseError {
    pub fn message(&self) -> (s: String)
        ensures
            s@ == "Unclosed frontmatter: missing closing ---"@,
    {
        String::from_str("Unclosed frontmatter: missing closing ---")
    }
}

// ---------------------------------------------------------------------------
// The frontmatter grammar
// ---------------------------------------------------------------------------

/// What the frontmatter block says, and which list a `- item` line adds to.
pub struct Frontmatter {
    pub name: Option<Seq<char>>,
    pub depends: Seq<Seq<char>>,
    pub skip: Seq<Seq<char>>,
    pub in_depends: bool,
    pub in_skip: bool,
}

pub open spec fn empty_frontmatter() -> Frontmatter {
    Frontmatter { name: None, depends: seq![], skip: seq![], in_depends: false, in_skip: false }
}

/// A line that is a list item: it begins with `  - `, a tab and `- `, or `- `.
pub open spec fn is_item_line(line: Seq<char>) -> bool {
    starts_with(line, "  - "@) || starts_with(line, "\t- "@) || starts_with(line, "- "@)
}

/// The text of a list item line.
pub open spec fn item_text(line: Seq<char>) -> Seq<char> {
    trim(trim_start_char(trim(line), '-'))
}

/// A value written as an inline list: `[a, b, c]`.
pub open spec fn is_inline_list(value: Seq<char>) -> bool {
    starts_with(value, "["@) && ends_with(value, "]"@)
}

/// The trimmed pieces, without the empty ones.
pub open spec fn nonempty_trimmed(parts: Seq<Seq<char>>) -> Seq<Seq<char>>
    decreases parts.len(),
{
    if parts.len() == 0 {
        seq![]
    } else {
        let rest = nonempty_trimmed(parts.drop_last());
        let t = trim(parts.last());
        if t.len() > 0 {
            rest.push(t)
        } else {
            rest
        }
    }
}

/// The items of an inline list.
pub open spec fn inline_items(value: Seq<char>) -> Seq<Seq<char>> {
    nonempty_trimmed(split(value.subrange(1, value.len() - 1), ','))
}

/// What a `key: value` line does.
pub open spec fn key_step(st: Frontmatter, key: Seq<char>, value: Seq<char>) -> Frontmatter {
    let cleared = Frontmatter { in_depends: false, in_skip: false, ..st };
    if key == "name"@ {
        Frontmatter { name: Some(value), ..cleared }
    } else if key == "depends"@ {
        if is_inline_list(value) {
            Frontmatter { depends: st.depends + inline_items(value), ..cleared }
        } else {
            Frontmatter { in_depends: true, ..cleared }
        }
    } else if key == "skip"@ {
        if is_inline_list(value) {
            Frontmatter { skip: st.skip + inline_items(value), ..cleared }
        } else {
            Frontmatter { in_skip: true, ..cleared }
        }
    } else {
        cleared
    }
}

/// What one frontmatter line does: blank lines and `#` comments do nothing;
/// a list item joins the list that the last key opened; `key: value` sets
/// the name or a list; any other line does nothing.
pub open spec fn line_step(st: Frontmatter, line: Seq<char>) -> Frontmatter {
    let t = trim(line);
    if t.len() == 0 || starts_with(t, "#"@) {
        st
    } else if is_item_line(line) {
        let item = item_text(line);
        if item.len() == 0 {
            st
        } else if st.in_depends {
            Frontmatter { depends: st.depends.push(item), ..st }
        } else if st.in_skip {
            Frontmatter { skip: st.skip.push(item), ..st }
        } else {
            st
        }
    } else {
        let i = index_of(t, ':');
        if i < 0 {
            st
        } else {
            key_step(st, trim(t.take(i)), trim(t.skip(i + 1)))
        }
    }
}

/// The lines read in order.
pub open spec fn read_lines(ls: Seq<Seq<char>>) -> Frontmatter
    decreases ls.len(),
{
    if ls.len() == 0 {
        empty_frontmatter()
    } else {
        line_step(read_lines(ls.drop_last()), ls.last())
    }
}

/// The frontmatter block's text read line by line.
pub open spec fn parse_yaml_spec(yaml: Seq<char>) -> Frontmatter {
    read_lines(lines(yaml))
}

/// A parsed task, as sequences.
pub struct TaskDefinitionView {
    pub name: Seq<char>,
    pub depends: Seq<Seq<char>>,
    pub skip: Seq<Seq<char>>,
    pub description: Seq<char>,
}

/// The frontmatter block (when there is one) and the body. The content,
/// without leading whitespace, opens a frontmatter block with `---`; the
/// block ends at the next line that starts with `---`, and the body follows
/// it. `None` for an unclosed block.
pub open spec fn split_frontmatter(content: Seq<char>) -> Option<(Option<Seq<char>>, Seq<char>)> {
    let c = trim_start(content);
    if !starts_with(c, "---"@) {
        Some((None, c))
    } else {
        let after = c.skip(3);
        let e = find(after, "\n---"@);
        if e < 0 {
            None
        } else {
            Some((Some(trim(after.take(e))), trim_start(c.skip(3 + e + 4))))
        }
    }
}

/// The task a markdown file describes.
pub open spec fn parse_spec(content: Seq<char>, default_name: Seq<char>) -> Option<
    TaskDefinitionView,
> {
    match split_frontmatter(content) {
        None => None,
        Some((None, body)) => Some(
            TaskDefinitionView {
                name: default_name,
                depends: seq![],
                skip: seq![],
                description: body,
            },
        ),
        Some((Some(yaml), body)) => {
            let fm = parse_yaml_spec(yaml);
            Some(
                TaskDefinitionView {
                    name: match fm.name {
                        Some(n) => n,
                        None => default_name,
                    },
                    depends: fm.depends,
                    skip: fm.skip,
                    description: body,
                },
            )
        },
    }
}

pub open spec fn string_views(v: Seq<String>) -> Seq<Seq<char>> {
    v.map_values(|s: String| s@)
}

impl View for TaskDefinition {
    type V = TaskDefinitionView;

    open spec fn view(&self) -> TaskDefinitionView {
        TaskDefinitionView {
            name: self.name@,
            depends: string_views(self.depends@),
            skip: string_views(self.skip@),
            description: self.description@,
        }
    }
}

// ---------------------------------------------------------------------------
// The parser
// ---------------------------------------------------------------------------

struct FrontmatterState {
    name: Option<Vec<char>>,
    depends: Vec<Vec<char>>,
    skip: Vec<Vec<char>>,
    in_depends: bool,
    in_skip: bool,
}

impl FrontmatterState {
    spec fn view(&self) -> Frontmatter {
        Frontmatter {
            name: match self.name {
                Some(n) => Some(n@),
                None => None,
            },
            depends: views(self.depends@),
            skip: views(self.skip@),
            in_depends: self.in_depends,
            in_skip: self.in_skip,
        }
    }
}

fn push_view(v: &mut Vec<Vec<char>>, item: Vec<char>)
    ensures
        views(final(v)@) == views(old(v)@).push(item@),
{
    v.push(item);
    assert(views(v@) =~= views(old(v)@).push(item@));
}

/// The trimmed, non-empty items of an inline list.
fn inline_items_vec(value: &Vec<char>) -> (r: Vec<Vec<char>>)
    requires
        is_inline_list(value@),
    ensures
        views(r@) == inline_items(value@),
{
    proof {
        reveal_strlit("[");
        reveal_strlit("]");
        assert(value@.take(1)[0] == value@[0]);
        assert(value@.skip(value@.len() - 1)[0] == value@[value@.len() - 1]);
    }
    let inner = slice(value, 1, value.len() - 1);
    split_nonempty_trimmed(&inner, ',')
}

/// The pieces of `v` between separators, trimmed, without the empty ones.
pub fn split_nonempty_trimmed(v: &Vec<char>, sep: char) -> (r: Vec<Vec<char>>)
    ensures
        views(r@) == nonempty_trimmed(split(v@, sep)),
{
    let parts = split_vec(v, sep);
    let ghost pv = views(parts@);
    let mut out: Vec<Vec<char>> = Vec::new();
    let mut i: usize = 0;
    while i < parts.len()
        invariant
            i <= parts.len(),
            pv == views(parts@),
            views(out@) == nonempty_trimmed(pv.take(i as int)),
        decreases parts.len() - i,
    {
        assert(pv.take(i + 1).drop_last() =~= pv.take(i as int));
        assert(pv.take(i + 1).last() == parts@[i as int]@);
        let t = trim_vec(&parts[i]);
        if t.len() > 0 {
            push_view(&mut out, t);
        }
        i = i + 1;
    }
    assert(pv.take(i as int) =~= pv);
    out
}

fn append_views(v: &mut Vec<Vec<char>>, items: Vec<Vec<char>>)
    ensures
        views(final(v)@) == views(old(v)@) + views(items@),
{
    let mut i: usize = 0;
    while i < items.len()
        invariant
            i <= items.len(),
            views(v@) == views(old(v)@) + views(items@).take(i as int),
        decreases items.len() - i,
    {
        push_view(v, items[i].clone());
        i = i + 1;
        assert(views(v@) =~= views(old(v)@) + views(items@).take(i as int));
    }
    assert(views(items@).take(i as int) =~= views(items@));
}

fn key_step_exec(st: &mut FrontmatterState, key: &Vec<char>, value: Vec<char>)
    ensures
        final(st).view() == key_step(old(st).view(), key@, value@),
{
    st.in_depends = false;
    st.in_skip = false;
    if vec_eq(key, &chars_of("name")) {
        st.name = Some(value);
    } else if vec_eq(key, &chars_of("depends")) {
        if starts_with_vec(&value, &chars_of("[")) && ends_with_vec(&value, &chars_of("]")) {
            let items = inline_items_vec(&value);
            append_views(&mut st.depends, items);
        } else {
            st.in_depends = true;
        }
    } else if vec_eq(key, &chars_of("skip")) {
        if starts_with_vec(&value, &chars_of("[")) && ends_with_vec(&value, &chars_of("]")) {
            let items = inline_items_vec(&value);
            append_views(&mut st.skip, items);
        } else {
            st.in_skip = true;
        }
    }
}

fn line_step_exec(st: &mut FrontmatterState, line: &Vec<char>)
    ensures
        final(st).view() == line_step(old(st).view(), line@),
{
    let t = trim_vec(line);
    if t.len() == 0 || starts_with_vec(&t, &chars_of("#")) {
        return ;
    }
    if starts_with_vec(line, &chars_of("  - ")) || starts_with_vec(line, &chars_of("\t- "))
        || starts_with_vec(line, &chars_of("- ")) {
        let item = trim_vec(&trim_start_char_vec(&trim_vec(line), '-'));
        if item.len() > 0 {
            if st.in_depends {
                push_view(&mut st.depends, item);
            } else if st.in_skip {
                push_view(&mut st.skip, item);
            }
        }
        return ;
    }
    match index_of_vec(&t, ':') {
        None => {},
        Some(i) => {
            let key = trim_vec(&slice(&t, 0, i));
            let value = trim_vec(&slice(&t, i + 1, t.len()));
            proof {
                assert(t@.subrange(0, i as int) =~= t@.take(i as int));
                assert(t@.subrange(i + 1, t@.len() as int) =~= t@.skip(i + 1));
            }
            key_step_exec(st, &key, value);
        },
    }
}

pub fn strings_of(v: &Vec<Vec<char>>) -> (r: Vec<String>)
    ensures
        string_views(r@) == views(v@),
{
    let mut r: Vec<String> = Vec::new();
    let mut i: usize = 0;
    while i < v.len()
        invariant
            i <= v.len(),
            string_views(r@) == views(v@).take(i as int),
        decreases v.len() - i,
    {
        let ghost before = r@;
        let s = string_of(&v[i]);
        r.push(s);
        assert(string_views(r@) =~= string_views(before).push(v@[i as int]@));
        assert(views(v@).take(i + 1) =~= views(v@).take(i as int).push(v@[i as int]@));
        i = i + 1;
        assert(string_views(r@) =~= views(v@).take(i as int));
    }
    assert(views(v@).take(i as int) =~= views(v@));
    r
}

/// Reads the frontmatter block line by line.
fn parse_simple_yaml(yaml: &Vec<char>) -> (st: FrontmatterState)
    ensures
        st.view() == parse_yaml_spec(yaml@),
{
    let ls = lines_vec(yaml);
    let ghost lv = views(ls@);
    let mut st = FrontmatterState {
        name: None,
        depends: Vec::new(),
        skip: Vec::new(),
        in_depends: false,
        in_skip: false,
    };
    assert(st.view() == empty_frontmatter()) by {
        assert(views(st.depends@) =~= seq![]);
        assert(views(st.skip@) =~= seq![]);
    }
    let mut i: usize = 0;
    while i < ls.len()
        invariant
            i <= ls.len(),
            lv == views(ls@),
            lv == lines(yaml@),
            st.view() == read_lines(lv.take(i as int)),
        decreases ls.len() - i,
    {
        assert(lv.take(i + 1).drop_last() =~= lv.take(i as int));
        assert(lv.take(i + 1).last() == ls@[i as int]@);
        line_step_exec(&mut st, &ls[i]);
        i = i + 1;
    }
    assert(lv.take(i as int) =~= lv);
    st
}

/// Splits a task file into its frontmatter block, if any, and its body.
fn parse_frontmatter(content: &str) -> (r: Option<(Option<Vec<char>>, Vec<char>)>)
    ensures
        match split_frontmatter(content@) {
            None => r is None,
            Some((y, b)) => r matches Some((ry, rb)) && rb@ == b && match y {
                None => ry is None,
                Some(yv) => ry matches Some(x) && x@ == yv,
            },
        },
{
    let c = trim_start_vec(&chars_of(content));
    if !starts_with_vec(&c, &chars_of("---")) {
        return Some((None, c));
    }
    proof {
        reveal_strlit("---");
        reveal_strlit("\n---");
    }
    let after = slice(&c, 3, c.len());
    assert(after@ =~= c@.skip(3));
    match find_vec(&after, &chars_of("\n---")) {
        None => None,
        Some(e) => {
            let yaml = trim_vec(&slice(&after, 0, e));
            assert(after@.subrange(0, e as int) =~= after@.take(e as int));
            let body = trim_start_vec(&slice(&c, 3 + e + 4, c.len()));
            assert(c@.subrange(3 + e + 4, c@.len() as int) =~= c@.skip(3 + e + 4));
            Some((Some(yaml), body))
        },
    }
}

impl TaskDefinition {
    /// Parses a task from its markdown content; `default_name` names a task
    /// whose frontmatter gives no name.
    pub fn parse(content: &str, default_name: &str) -> (r: Result<Self, TaskParseError>)
        ensures
            match parse_spec(content@, default_name@) {
                None => r is Err,
                Some(t) => r matches Ok(d) && d@ == t,
            },
    {
        let (yaml, body) = match parse_frontmatter(content) {
            None => return Err(TaskParseError::UnclosedFrontmatter),
            Some(p) => p,
        };
        let description = string_of(&body);
        match yaml {
            None => {
                let r = TaskDefinition {
                    name: String::from_str(default_name),
                    depends: Vec::new(),
                    skip: Vec::new(),
                    description,
                };
                assert(string_views(r.depends@) =~= seq![]);
                assert(string_views(r.skip@) =~= seq![]);
                Ok(r)
            },
            Some(y) => {
                let fm = parse_simple_yaml(&y);
                let name = match &fm.name {
                    Some(n) => string_of(n),
                    None => String::from_str(default_name),
                };
                Ok(
                    TaskDefinition {
                        name,
                        depends: strings_of(&fm.depends),
                        skip: strings_of(&fm.skip),
                        description,
                    },
                )
            },
        }
    }
}

/// A `key: value` line closes whatever list was open. Only `depends:` or
/// `skip:` with no inline list opens one, and then just that list, so the
/// items that follow `skip:` go to the skipped steps and never to the
/// dependencies. A key adds to a list only when it names that list.
pub proof fn law_key_line_closes_lists(st: Frontmatter, key: Seq<char>, value: Seq<char>)
    ensures
        key_step(st, key, value).in_depends <==> (key == "depends"@ && !is_inline_list(value)),
        key_step(st, key, value).in_skip <==> (key == "skip"@ && !is_inline_list(value)),
        key != "depends"@ ==> key_step(st, key, value).depends == st.depends,
        key != "skip"@ ==> key_step(st, key, value).skip == st.skip,
        key_step(st, key, value).name == if key == "name"@ {
            Some(value)
        } else {
            st.name
        },
        key == "depends"@ && is_inline_list(value) ==> key_step(st, key, value).depends == st.depends
            + inline_items(value),
        key == "skip"@ && is_inline_list(value) ==> key_step(st, key, value).skip == st.skip
            + inline_items(value),
{
    reveal_strlit("name");
    reveal_strlit("depends");
    reveal_strlit("skip");
    assert("depends"@ != "name"@) by {
        assert("depends"@.len() != "name"@.len());
    }
    assert("skip"@ != "name"@) by {
        assert("skip"@[0] != "name"@[0]);
    }
    assert("skip"@ != "depends"@) by {
        assert("skip"@.len() != "depends"@.len());
    }
}

} // verus!
