//! The file of a new task.
use vstd::prelude::*;

use crate::model::task::{
    empty_frontmatter, item_text, line_step, nonempty_trimmed, parse_spec, read_lines, split_frontmatter,
    split_nonempty_trimmed, string_views, strings_of, Frontmatter, TaskDefinitionView,
};
use crate::text::{
    chars_of, is_ws, lemma_find_at, lemma_index_of_at, lemma_lines_concat, lemma_lines_last,
    lemma_lines_one, lemma_trim_plain, lemma_trim_start_ws_prefix, lines, matches_at, owned, split,
    starts_with, trim, trim_start, trim_start_char,
};

verus! {

/// The dependency names given as a comma-separated list: trimmed, without
/// empty ones.
pub fn parse_depends(depends: &str) -> (r: Vec<String>)
    ensures
        string_views(r@) == nonempty_trimmed(split(depends@, ',')),
{
    strings_of(&split_nonempty_trimmed(&chars_of(depends), ','))
}

/// The `depends:` lines of the frontmatter.
pub open spec fn depends_lines(deps: Seq<Seq<char>>) -> Seq<char>
    decreases deps.len(),
{
    if deps.len() == 0 {
        seq![]
    } else {
        depends_lines(deps.drop_last()) + "  - "@ + deps.last() + "\n"@
    }
}

/// The body of a task without a description: a template to fill in.
pub open spec fn template_body(name: Seq<char>) -> Seq<char> {
    "## Task: "@ + name
        + "\n\n### Goal\n\n<!-- Describe what to do -->\n\n### Constraints\n\n<!-- Technical constraints, what NOT to do -->\n\n### Acceptance Criteria\n\n- [ ] TODO\n\n<!-- On retry failure, append fix guidance below (don't overwrite \u{2014} preserves history) -->\n"@
}

/// The content of a new task file: frontmatter with the name, the
/// dependencies and a commented skip list, then the description or a
/// template.
pub open spec fn task_content(name: Seq<char>, description: Option<Seq<char>>, deps: Seq<Seq<char>>) -> Seq<
    char,
> {
    "---\n"@ + "name: "@ + name + "\n"@ + (if deps.len() > 0 {
        "depends:\n"@ + depends_lines(deps)
    } else {
        seq![]
    }) + "# skip:          # skip workflow steps not needed\n"@ + "#   - cleanup\n"@ + "---\n\n"@
        + match description {
        Some(d) => "## Task: "@ + name + "\n\n"@ + d + "\n"@,
        None => template_body(name),
    }
}

/// Writes the content of a new task file.
pub fn generate_task_content(name: &str, description: Option<&str>, depends: &Vec<String>) -> (r:
    String)
    ensures
        r@ == task_content(
            name@,
            match description {
                Some(d) => Some(d@),
                None => None,
            },
            string_views(depends@),
        ),
{
    let ghost dv = string_views(depends@);
    let mut content = owned("---\n");
    content.append("name: ");
    content.append(name);
    content.append("\n");
    let ghost head = content@;
    if depends.len() > 0 {
        content.append("depends:\n");
        let ghost before = content@;
        let mut i: usize = 0;
        while i < depends.len()
            invariant
                i <= depends.len(),
                dv == string_views(depends@),
                content@ == before + depends_lines(dv.take(i as int)),
            decreases depends.len() - i,
        {
            assert(dv.take(i + 1).drop_last() =~= dv.take(i as int));
            content.append("  - ");
            content.append(depends[i].as_str());
            content.append("\n");
            i = i + 1;
        }
        assert(dv.take(i as int) =~= dv);
    }
    content.append("# skip:          # skip workflow steps not needed\n");
    content.append("#   - cleanup\n");
    content.append("---\n\n");
    match description {
        Some(d) => {
            content.append("## Task: ");
            content.append(name);
            content.append("\n\n");
            content.append(d);
            content.append("\n");
        },
        None => {
            content.append("## Task: ");
            content.append(name);
            content.append(
                "\n\n### Goal\n\n<!-- Describe what to do -->\n\n### Constraints\n\n<!-- Technical constraints, what NOT to do -->\n\n### Acceptance Criteria\n\n- [ ] TODO\n\n<!-- On retry failure, append fix guidance below (don't overwrite \u{2014} preserves history) -->\n",
            );
        },
    }
    content
}

// ---------------------------------------------------------------------------
// A written task file reads back
// ---------------------------------------------------------------------------

/// Text fit to stand on a frontmatter line as a name or a dependency:
/// non-empty, one line, without leading or trailing whitespace.
pub open spec fn plain_line(s: Seq<char>) -> bool {
    &&& s.len() > 0
    &&& forall|i: int| 0 <= i < s.len() ==> #[trigger] s[i] != '\n'
    &&& !is_ws(s[0])
    &&& !is_ws(s.last())
}

/// No line of `s` but the first starts with a dash.
pub open spec fn no_dash_line(s: Seq<char>) -> bool {
    forall|j: int| 0 <= j < s.len() - 1 && #[trigger] s[j] == '\n' ==> s[j + 1] != '-'
}

proof fn lemma_no_dash_concat(a: Seq<char>, b: Seq<char>)
    requires
        no_dash_line(a),
        no_dash_line(b),
        a.len() > 0 && a.last() == '\n' && b.len() > 0 ==> b[0] != '-',
    ensures
        no_dash_line(a + b),
{
    let s = a + b;
    assert forall|j: int| 0 <= j < s.len() - 1 && #[trigger] s[j] == '\n' implies s[j + 1] != '-' by {
        if j < a.len() - 1 {
            assert(s[j] == a[j] && s[j + 1] == a[j + 1]);
        } else if j == a.len() - 1 {
            assert(s[j] == a.last() && s[j + 1] == b[0]);
        } else {
            assert(s[j] == b[j - a.len()] && s[j + 1] == b[j + 1 - a.len()]);
        }
    }
}

proof fn lemma_no_dash_one_line(s: Seq<char>)
    requires
        forall|j: int| 0 <= j < s.len() - 1 ==> #[trigger] s[j] != '\n',
    ensures
        no_dash_line(s),
{
}

/// The item lines that list the dependencies.
pub open spec fn item_lines(deps: Seq<Seq<char>>) -> Seq<Seq<char>> {
    deps.map_values(|d: Seq<char>| "  - "@ + d)
}

proof fn lemma_item_line(d: Seq<char>)
    requires
        plain_line(d),
    ensures
        forall|j: int| 0 <= j < ("  - "@ + d).len() ==> #[trigger] ("  - "@ + d)[j] != '\n',
        ("  - "@ + d).last() != '\r',
        ("  - "@ + d)[0] == ' ',
{
    reveal_strlit("  - ");
    let l = "  - "@ + d;
    assert forall|j: int| 0 <= j < l.len() implies #[trigger] l[j] != '\n' by {
        if j >= 4 {
            assert(l[j] == d[j - 4]);
        }
    }
    assert(l.last() == d.last());
}

proof fn lemma_depends_lines(deps: Seq<Seq<char>>)
    requires
        forall|i: int| 0 <= i < deps.len() ==> plain_line(#[trigger] deps[i]),
    ensures
        lines(depends_lines(deps)) == item_lines(deps),
        no_dash_line(depends_lines(deps)),
        depends_lines(deps).len() > 0 ==> depends_lines(deps).last() == '\n' && depends_lines(deps)[0]
            == ' ',
        deps.len() > 0 ==> depends_lines(deps).len() > 0,
    decreases deps.len(),
{
    reveal_strlit("\n");
    reveal_strlit("  - ");
    if deps.len() == 0 {
        assert(lines(Seq::<char>::empty()) =~= Seq::<Seq<char>>::empty());
        assert(item_lines(deps) =~= Seq::<Seq<char>>::empty());
    } else {
        let init = deps.drop_last();
        let d = deps.last();
        assert(plain_line(deps[deps.len() - 1]));
        lemma_depends_lines(init);
        lemma_item_line(d);
        let l = "  - "@ + d;
        let x = l + seq!['\n'];
        assert("  - "@ + d + "\n"@ =~= x);
        let a = depends_lines(init);
        assert(depends_lines(deps) == a + x);
        lemma_lines_concat(a, x);
        lemma_lines_one(l);
        assert(item_lines(deps) =~= item_lines(init).push(l));
        assert(lines(a + x) =~= item_lines(deps));
        assert forall|j: int| 0 <= j < x.len() - 1 implies #[trigger] x[j] != '\n' by {
            assert(x[j] == l[j]);
        }
        lemma_no_dash_one_line(x);
        lemma_no_dash_concat(a, x);
        assert((a + x).last() == '\n');
        if a.len() > 0 {
            assert((a + x)[0] == a[0]);
        } else {
            assert((a + x)[0] == x[0]);
        }
    }
}

/// The lines read on from a frontmatter state.
pub open spec fn read_more(st: Frontmatter, ls: Seq<Seq<char>>) -> Frontmatter
    decreases ls.len(),
{
    if ls.len() == 0 {
        st
    } else {
        line_step(read_more(st, ls.drop_last()), ls.last())
    }
}

proof fn lemma_read_lines_from_empty(ls: Seq<Seq<char>>)
    ensures
        read_lines(ls) == read_more(empty_frontmatter(), ls),
    decreases ls.len(),
{
    if ls.len() > 0 {
        lemma_read_lines_from_empty(ls.drop_last());
    }
}

proof fn lemma_read_more_concat(st: Frontmatter, a: Seq<Seq<char>>, b: Seq<Seq<char>>)
    ensures
        read_more(st, a + b) == read_more(read_more(st, a), b),
    decreases b.len(),
{
    if b.len() == 0 {
        assert(a + b =~= a);
    } else {
        lemma_read_more_concat(st, a, b.drop_last());
        assert((a + b).drop_last() =~= a + b.drop_last());
        assert((a + b).last() == b.last());
    }
}

proof fn lemma_read_one(st: Frontmatter, l: Seq<char>)
    ensures
        read_more(st, seq![l]) == line_step(st, l),
{
    reveal_with_fuel(read_more, 2);
    assert(seq![l].drop_last() =~= Seq::<Seq<char>>::empty());
    assert(seq![l].last() == l);
}

/// A dependency item adds its dependency while the list is open.
proof fn lemma_item_step(st: Frontmatter, d: Seq<char>)
    requires
        st.in_depends,
        plain_line(d),
    ensures
        line_step(st, "  - "@ + d) == (Frontmatter { depends: st.depends.push(d), ..st }),
{
    reveal_strlit("  - ");
    reveal_strlit("\t- ");
    reveal_strlit("- ");
    reveal_strlit(" ");
    reveal_strlit("#");
    let line = "  - "@ + d;
    let rest = "- "@ + d;
    assert(line =~= "  "@ + rest) by {
        reveal_strlit("  ");
    }
    reveal_strlit("  ");
    lemma_trim_start_ws_prefix("  "@, rest);
    assert(rest[0] == '-');
    assert(rest.last() == d.last());
    lemma_trim_plain(rest);
    let t = trim(line);
    assert(t == rest);
    assert(!starts_with(t, "#"@)) by {
        assert(t.take(1)[0] == '-');
    }
    assert(line.take(4) =~= "  - "@);
    assert(rest.drop_first() =~= " "@ + d);
    assert(trim_start_char(rest, '-') == trim_start_char(rest.drop_first(), '-'));
    assert((" "@ + d)[0] == ' ');
    assert(trim_start_char(rest, '-') == " "@ + d);
    lemma_trim_start_ws_prefix(" "@, d);
    lemma_trim_plain(d);
    assert(item_text(line) == d);
}

/// A comment line changes nothing.
proof fn lemma_comment_step(st: Frontmatter, l: Seq<char>)
    requires
        l.len() > 0,
        l[0] == '#',
        !is_ws(l.last()),
    ensures
        line_step(st, l) == st,
{
    reveal_strlit("#");
    lemma_trim_plain(l);
    assert(l.take(1) =~= "#"@);
}

/// The name line sets the name and closes any open list.
proof fn lemma_name_step(st: Frontmatter, name: Seq<char>)
    requires
        plain_line(name),
    ensures
        line_step(st, "name: "@ + name) == (Frontmatter {
            name: Some(name),
            in_depends: false,
            in_skip: false,
            ..st
        }),
{
    reveal_strlit("name: ");
    reveal_strlit("name");
    reveal_strlit("depends");
    reveal_strlit("skip");
    reveal_strlit("#");
    reveal_strlit("  - ");
    reveal_strlit("\t- ");
    reveal_strlit("- ");
    reveal_strlit(" ");
    let l = "name: "@ + name;
    assert(l[0] == 'n');
    assert(l.last() == name.last());
    lemma_trim_plain(l);
    assert(trim(l) == l);
    assert(l.take(1) != "#"@) by {
        assert(l.take(1)[0] == 'n');
    }
    assert(l.take(4) != "  - "@) by {
        assert(l.take(4)[0] == 'n');
    }
    assert(l.take(3) != "\t- "@) by {
        assert(l.take(3)[0] == 'n');
    }
    assert(l.take(2) != "- "@) by {
        assert(l.take(2)[0] == 'n');
    }
    assert(l[0] != ':' && l[1] != ':' && l[2] != ':' && l[3] != ':' && l[4] == ':');
    lemma_index_of_at(l, ':', 4);
    assert(l.take(4) =~= "name"@);
    lemma_trim_plain("name"@);
    assert(l.skip(5) =~= " "@ + name);
    lemma_trim_start_ws_prefix(" "@, name);
    lemma_trim_plain(name);
    assert(trim(l.skip(5)) == name);
}

/// The `depends:` line opens the dependency list.
proof fn lemma_depends_step(st: Frontmatter)
    ensures
        line_step(st, "depends:"@) == (Frontmatter { in_depends: true, in_skip: false, ..st }),
{
    reveal_strlit("depends:");
    reveal_strlit("name");
    reveal_strlit("depends");
    reveal_strlit("skip");
    reveal_strlit("#");
    reveal_strlit("[");
    reveal_strlit("  - ");
    reveal_strlit("\t- ");
    reveal_strlit("- ");
    let l = "depends:"@;
    lemma_trim_plain(l);
    assert(l.take(1) != "#"@) by {
        assert(l.take(1)[0] == 'd');
    }
    assert(l.take(4) != "  - "@) by {
        assert(l.take(4)[0] == 'd');
    }
    assert(l.take(3) != "\t- "@) by {
        assert(l.take(3)[0] == 'd');
    }
    assert(l.take(2) != "- "@) by {
        assert(l.take(2)[0] == 'd');
    }
    lemma_index_of_at(l, ':', 7);
    assert(l.take(7) =~= "depends"@);
    lemma_trim_plain("depends"@);
    assert(l.skip(8) =~= Seq::<char>::empty());
    assert("depends"@ != "name"@);
    assert(!starts_with(Seq::<char>::empty(), "["@));
}

/// The item lines add their dependencies in order while the list is open.
proof fn lemma_items_read(st: Frontmatter, deps: Seq<Seq<char>>)
    requires
        st.in_depends,
        forall|i: int| 0 <= i < deps.len() ==> plain_line(#[trigger] deps[i]),
    ensures
        read_more(st, item_lines(deps)) == (Frontmatter { depends: st.depends + deps, ..st }),
    decreases deps.len(),
{
    if deps.len() == 0 {
        assert(item_lines(deps).len() == 0);
        assert(st.depends + deps =~= st.depends);
    } else {
        let init = deps.drop_last();
        lemma_items_read(st, init);
        assert(item_lines(deps).drop_last() =~= item_lines(init));
        assert(item_lines(deps).last() == "  - "@ + deps.last());
        assert(plain_line(deps[deps.len() - 1]));
        lemma_item_step(Frontmatter { depends: st.depends + init, ..st }, deps.last());
        assert((st.depends + init).push(deps.last()) =~= st.depends + deps);
    }
}

/// The frontmatter a new task file holds, between its two dash lines.
pub open spec fn frontmatter_text(name: Seq<char>, deps: Seq<Seq<char>>) -> Seq<char> {
    "name: "@ + name + "\n"@ + (if deps.len() > 0 {
        "depends:\n"@ + depends_lines(deps)
    } else {
        seq![]
    }) + "# skip:          # skip workflow steps not needed"@ + "\n"@ + "#   - cleanup"@
}

/// The lines of that frontmatter.
pub open spec fn frontmatter_lines(name: Seq<char>, deps: Seq<Seq<char>>) -> Seq<Seq<char>> {
    seq!["name: "@ + name] + (if deps.len() > 0 {
        seq!["depends:"@] + item_lines(deps)
    } else {
        Seq::<Seq<char>>::empty()
    }) + seq!["# skip:          # skip workflow steps not needed"@] + seq!["#   - cleanup"@]
}

/// No line of the frontmatter starts with a dash, and it ends in a letter.
proof fn lemma_frontmatter_no_dash(name: Seq<char>, deps: Seq<Seq<char>>)
    requires
        plain_line(name),
        forall|i: int| 0 <= i < deps.len() ==> plain_line(#[trigger] deps[i]),
    ensures
        no_dash_line("\n"@ + frontmatter_text(name, deps)),
        frontmatter_text(name, deps)[0] == 'n',
        frontmatter_text(name, deps).last() == 'p',
{
    reveal_strlit("name: ");
    reveal_strlit("\n");
    reveal_strlit("depends:\n");
    reveal_strlit("# skip:          # skip workflow steps not needed");
    reveal_strlit("#   - cleanup");
    let nameline = "name: "@ + name;
    let dl = depends_lines(deps);
    let depblock = if deps.len() > 0 {
        "depends:\n"@ + dl
    } else {
        Seq::<char>::empty()
    };
    let skip1 = "# skip:          # skip workflow steps not needed"@;
    let skip2 = "#   - cleanup"@;
    let nl = "\n"@;
    lemma_depends_lines(deps);
    assert(nameline[0] == 'n');
    assert(nameline.last() == name.last());
    assert forall|j: int| 0 <= j < nameline.len() implies #[trigger] nameline[j] != '\n' by {
        if j >= 6 {
            assert(nameline[j] == name[j - 6]);
        }
    }
    lemma_no_dash_one_line(nameline);
    lemma_no_dash_one_line(nl);
    lemma_no_dash_one_line(skip1);
    lemma_no_dash_one_line(skip2);
    lemma_no_dash_one_line("depends:\n"@);
    lemma_no_dash_concat(nl, nameline);
    let a1 = nl + nameline;
    assert(a1.last() == name.last());
    lemma_no_dash_concat(a1, nl);
    let a2 = a1 + nl;
    if deps.len() > 0 {
        lemma_no_dash_concat("depends:\n"@, dl);
        assert(depblock[0] == 'd');
        assert(depblock.last() == '\n');
    }
    lemma_no_dash_one_line(Seq::<char>::empty());
    lemma_no_dash_concat(a2, depblock);
    let a3 = a2 + depblock;
    assert(a3.last() == '\n') by {
        if deps.len() > 0 {
            assert(a3.last() == depblock.last());
        } else {
            assert(a3 =~= a2);
        }
    }
    lemma_no_dash_concat(a3, skip1);
    let a4 = a3 + skip1;
    assert(a4.last() == 'd');
    lemma_no_dash_concat(a4, nl);
    let a5 = a4 + nl;
    lemma_no_dash_concat(a5, skip2);
    let y = frontmatter_text(name, deps);
    assert(nl + y =~= a5 + skip2);
    assert(y[0] == nameline[0]);
    assert(y.last() == skip2.last());
}

/// A new task file splits into its frontmatter and its body.
proof fn lemma_task_file_split(name: Seq<char>, desc: Seq<char>, deps: Seq<Seq<char>>)
    requires
        plain_line(name),
        forall|i: int| 0 <= i < deps.len() ==> plain_line(#[trigger] deps[i]),
    ensures
        split_frontmatter(task_content(name, Some(desc), deps)) == Some(
            (Some(frontmatter_text(name, deps)), "## Task: "@ + name + "\n\n"@ + desc + "\n"@),
        ),
{
    reveal_strlit("---\n");
    reveal_strlit("name: ");
    reveal_strlit("\n");
    reveal_strlit("# skip:          # skip workflow steps not needed\n");
    reveal_strlit("# skip:          # skip workflow steps not needed");
    reveal_strlit("#   - cleanup\n");
    reveal_strlit("#   - cleanup");
    reveal_strlit("---\n\n");
    reveal_strlit("## Task: ");
    reveal_strlit("---");
    reveal_strlit("\n---");
    reveal_strlit("\n---\n\n");
    let y = frontmatter_text(name, deps);
    let body = "## Task: "@ + name + "\n\n"@ + desc + "\n"@;
    let nl = "\n"@;
    let p = nl + y;
    let pat = "\n---"@;
    let after = p + "\n---\n\n"@ + body;
    let content = task_content(name, Some(desc), deps);
    assert(content =~= "---"@ + after);
    lemma_frontmatter_no_dash(name, deps);
    assert(p.last() == y.last());
    assert forall|j: int| 0 <= j < p.len() implies !matches_at(after, pat, j) by {
        if matches_at(after, pat, j) {
            assert(after.subrange(j, j + 4)[0] == after[j]);
            assert(after.subrange(j, j + 4)[1] == after[j + 1]);
            if j < p.len() - 1 {
                assert(after[j] == p[j] && after[j + 1] == p[j + 1]);
            } else {
                assert(after[j] == p.last());
            }
        }
    }
    assert(after.subrange(p.len() as int, p.len() as int + 4) =~= pat);
    lemma_find_at(after, pat, p.len() as int);
    let e = p.len() as int;
    assert(content[0] == '-');
    assert(trim_start(content) == content);
    assert(starts_with(content, "---"@)) by {
        assert(content.take(3) =~= "---"@);
    }
    assert(content.skip(3) =~= after);
    assert(after.take(e) =~= p);
    lemma_trim_plain(y);
    lemma_trim_start_ws_prefix(nl, y);
    assert(trim(after.take(e)) == y);
    reveal_strlit("\n\n");
    assert(content.skip(3 + e + 4) =~= "\n\n"@ + body);
    lemma_trim_start_ws_prefix("\n\n"@, body);
    assert(body[0] == '#');
    assert(trim_start(body) == body);
}

/// The frontmatter of a new task file has one line per entry.
proof fn lemma_frontmatter_lines(name: Seq<char>, deps: Seq<Seq<char>>)
    requires
        plain_line(name),
        forall|i: int| 0 <= i < deps.len() ==> plain_line(#[trigger] deps[i]),
    ensures
        lines(frontmatter_text(name, deps)) == frontmatter_lines(name, deps),
{
    reveal_strlit("name: ");
    reveal_strlit("\n");
    reveal_strlit("depends:\n");
    reveal_strlit("depends:");
    reveal_strlit("# skip:          # skip workflow steps not needed");
    reveal_strlit("#   - cleanup");
    let nameline = "name: "@ + name;
    let dl = depends_lines(deps);
    let depblock = if deps.len() > 0 {
        "depends:\n"@ + dl
    } else {
        Seq::<char>::empty()
    };
    let skip1 = "# skip:          # skip workflow steps not needed"@;
    let skip2 = "#   - cleanup"@;
    let nl = "\n"@;
    lemma_depends_lines(deps);
    assert(nl =~= seq!['\n']);
    assert forall|j: int| 0 <= j < nameline.len() implies #[trigger] nameline[j] != '\n' by {
        if j >= 6 {
            assert(nameline[j] == name[j - 6]);
        }
    }
    assert(nameline.last() == name.last());
    lemma_lines_one(nameline);
    lemma_lines_one(skip1);
    lemma_lines_last(skip2);
    let rest2 = (skip1 + nl) + skip2;
    lemma_lines_concat(skip1 + nl, skip2);
    let dlines = if deps.len() > 0 {
        seq!["depends:"@] + item_lines(deps)
    } else {
        Seq::<Seq<char>>::empty()
    };
    if deps.len() > 0 {
        lemma_lines_one("depends:"@);
        assert("depends:\n"@ =~= "depends:"@ + nl);
        lemma_lines_concat("depends:\n"@, dl);
    } else {
        assert(lines(depblock) =~= Seq::<Seq<char>>::empty());
    }
    assert(lines(depblock) == dlines);
    lemma_lines_concat(depblock, rest2);
    lemma_lines_concat(nameline + nl, depblock + rest2);
    assert(frontmatter_text(name, deps) =~= (nameline + nl) + (depblock + rest2));
    assert(lines(frontmatter_text(name, deps)) =~= frontmatter_lines(name, deps));
}

/// Reading those lines gives the name and the dependencies, and no skips.
proof fn lemma_frontmatter_read(name: Seq<char>, deps: Seq<Seq<char>>)
    requires
        plain_line(name),
        forall|i: int| 0 <= i < deps.len() ==> plain_line(#[trigger] deps[i]),
    ensures
        ({
            let fm = read_lines(frontmatter_lines(name, deps));
            fm.name == Some(name) && fm.depends == deps && fm.skip == Seq::<Seq<char>>::empty()
        }),
{
    reveal_strlit("# skip:          # skip workflow steps not needed");
    reveal_strlit("#   - cleanup");
    let nameline = "name: "@ + name;
    let skip1 = "# skip:          # skip workflow steps not needed"@;
    let skip2 = "#   - cleanup"@;
    let dlines = if deps.len() > 0 {
        seq!["depends:"@] + item_lines(deps)
    } else {
        Seq::<Seq<char>>::empty()
    };
    let ls = frontmatter_lines(name, deps);
    assert(ls =~= seq![nameline] + dlines + seq![skip1] + seq![skip2]);
    lemma_read_lines_from_empty(ls);
    let st0 = empty_frontmatter();
    lemma_read_more_concat(st0, seq![nameline] + dlines + seq![skip1], seq![skip2]);
    lemma_read_more_concat(st0, seq![nameline] + dlines, seq![skip1]);
    lemma_read_more_concat(st0, seq![nameline], dlines);
    lemma_read_one(st0, nameline);
    lemma_name_step(st0, name);
    let st1 = line_step(st0, nameline);
    let st2 = read_more(st1, dlines);
    if deps.len() > 0 {
        lemma_read_more_concat(st1, seq!["depends:"@], item_lines(deps));
        lemma_read_one(st1, "depends:"@);
        lemma_depends_step(st1);
        lemma_items_read(line_step(st1, "depends:"@), deps);
        assert(st1.depends + deps =~= deps);
    } else {
        assert(st2 == st1);
        assert(st1.depends =~= deps);
    }
    assert(st2.name == Some(name) && st2.depends == deps && st2.skip =~= Seq::<Seq<char>>::empty());
    assert(skip1[0] == '#' && skip1.last() == 'd');
    lemma_comment_step(st2, skip1);
    lemma_read_one(st2, skip1);
    assert(skip2[0] == '#' && skip2.last() == 'p');
    lemma_comment_step(st2, skip2);
    lemma_read_one(st2, skip2);
}

/// A task file written with a description reads back as written: its name,
/// its dependencies in order, no skipped steps, and as description the
/// heading and the text given. Names and dependencies are plain lines.
pub proof fn law_task_file_reads_back(
    name: Seq<char>,
    desc: Seq<char>,
    deps: Seq<Seq<char>>,
    default_name: Seq<char>,
)
    requires
        plain_line(name),
        forall|i: int| 0 <= i < deps.len() ==> plain_line(#[trigger] deps[i]),
    ensures
        parse_spec(task_content(name, Some(desc), deps), default_name) == Some(
            TaskDefinitionView {
                name: name,
                depends: deps,
                skip: seq![],
                description: "## Task: "@ + name + "\n\n"@ + desc + "\n"@,
            },
        ),
{
    lemma_task_file_split(name, desc, deps);
    lemma_frontmatter_lines(name, deps);
    lemma_frontmatter_read(name, deps);
}

} // verus!
