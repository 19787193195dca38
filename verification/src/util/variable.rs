//! Variables for command templates: `${name}` placeholders and `PAWL_*`
//! environment variables.
use vstd::prelude::*;

use crate::model::event::pair_views;
use crate::text::{
    chars_of, extend_chars, index_of, lemma_index_of, lemma_replace_all_match, lemma_replace_all_step,
    matches_at, owned,
    replace_all, replace_all_vec, str_eq, string_of, to_ascii_upper, to_ascii_upper_vec,
};

verus! {

/// An ordered list of variable bindings; a later binding of a name
/// overrides an earlier one.
#[derive(Debug, Clone)]
pub struct Context {
    vars: Vec<(String, String)>,
}

/// `${name}`.
pub open spec fn placeholder(name: Seq<char>) -> Seq<char> {
    "${"@ + name + "}"@
}

/// The value bound last to `key`.
pub open spec fn lookup(vars: Seq<(Seq<char>, Seq<char>)>, key: Seq<char>) -> Option<Seq<char>>
    decreases vars.len(),
{
    if vars.len() == 0 {
        None
    } else if vars.last().0 == key {
        Some(vars.last().1)
    } else {
        lookup(vars.drop_last(), key)
    }
}

/// The template with each binding's placeholder replaced by its value, one
/// binding after the other in order.
pub open spec fn expand_spec(vars: Seq<(Seq<char>, Seq<char>)>, t: Seq<char>) -> Seq<char>
    decreases vars.len(),
{
    if vars.len() == 0 {
        t
    } else {
        replace_all(expand_spec(vars.drop_last(), t), placeholder(vars.last().0), vars.last().1)
    }
}

/// The environment a command gets: `PAWL_` and the upper-case name, in order.
pub open spec fn env_vars_spec(vars: Seq<(Seq<char>, Seq<char>)>) -> Seq<(Seq<char>, Seq<char>)> {
    vars.map_values(|p: (Seq<char>, Seq<char>)| ("PAWL_"@ + to_ascii_upper(p.0), p.1))
}

impl View for Context {
    type V = Seq<(Seq<char>, Seq<char>)>;

    closed spec fn view(&self) -> Seq<(Seq<char>, Seq<char>)> {
        pair_views(self.vars@)
    }
}

fn push_pair(v: &mut Vec<(String, String)>, k: String, val: String)
    ensures
        pair_views(final(v)@) == pair_views(old(v)@).push((k@, val@)),
{
    v.push((k, val));
    assert(pair_views(v@) =~= pair_views(old(v)@).push((k@, val@)));
}

fn placeholder_chars(name: &str) -> (r: Vec<char>)
    ensures
        r@ == placeholder(name@),
        r@.len() > 0,
{
    let mut r = chars_of("${");
    extend_chars(&mut r, &chars_of(name));
    extend_chars(&mut r, &chars_of("}"));
    proof {
        reveal_strlit("}");
    }
    r
}

/// The position of `key` among the names of `r`, if it is there.
fn find_name(r: &Vec<(String, String)>, key: &str) -> (j: Option<usize>)
    ensures
        match j {
            Some(j) => j < r.len() && r@[j as int].0@ == key@,
            None => forall|a: int| 0 <= a < r.len() ==> r@[a].0@ != key@,
        },
{
    let mut i: usize = 0;
    while i < r.len()
        invariant
            i <= r.len(),
            forall|a: int| 0 <= a < i ==> r@[a].0@ != key@,
        decreases r.len() - i,
    {
        if str_eq(r[i].0.as_str(), key) {
            return Some(i);
        }
        i = i + 1;
    }
    None
}

impl Context {
    /// No bindings.
    pub fn build() -> (c: Self)
        ensures
            c@ == Seq::<(Seq<char>, Seq<char>)>::empty(),
    {
        let c = Context { vars: Vec::new() };
        assert(c@ =~= Seq::<(Seq<char>, Seq<char>)>::empty());
        c
    }

    /// Adds a binding.
    pub fn var(self, name: &str, value: &str) -> (c: Self)
        ensures
            c@ == self@.push((name@, value@)),
    {
        let mut c = self;
        push_pair(&mut c.vars, owned(name), owned(value));
        c
    }

    /// Adds a binding with an owned name (user variables from the configuration).
    pub fn var_owned(self, name: String, value: String) -> (c: Self)
        ensures
            c@ == self@.push((name@, value@)),
    {
        let mut c = self;
        push_pair(&mut c.vars, name, value);
        c
    }

    /// The value bound last to `key`.
    pub fn get(&self, key: &str) -> (r: Option<&str>)
        ensures
            match lookup(self@, key@) {
                Some(v) => r matches Some(s) && s@ == v,
                None => r is None,
            },
    {
        let mut i = self.vars.len();
        assert(self@.take(i as int) =~= self@);
        while i > 0
            invariant
                i <= self.vars.len(),
                lookup(self@, key@) == lookup(self@.take(i as int), key@),
            decreases i,
        {
            let ghost t = self@.take(i as int);
            assert(t.drop_last() =~= self@.take(i - 1));
            if str_eq(self.vars[i - 1].0.as_str(), key) {
                return Some(self.vars[i - 1].1.as_str());
            }
            i = i - 1;
        }
        None
    }

    /// Expands `${name}` placeholders, binding by binding in order, so a
    /// value may itself hold placeholders of later bindings.
    pub fn expand(&self, template: &str) -> (s: String)
        ensures
            s@ == expand_spec(self@, template@),
    {
        let mut s = chars_of(template);
        let mut i: usize = 0;
        while i < self.vars.len()
            invariant
                i <= self.vars.len(),
                s@ == expand_spec(self@.take(i as int), template@),
            decreases self.vars.len() - i,
        {
            assert(self@.take(i + 1).drop_last() =~= self@.take(i as int));
            let p = placeholder_chars(self.vars[i].0.as_str());
            let v = chars_of(self.vars[i].1.as_str());
            s = replace_all_vec(&s, &p, &v);
            i = i + 1;
        }
        assert(self@.take(i as int) =~= self@);
        string_of(&s)
    }

    /// The bindings as environment variables for a subprocess: `PAWL_`
    /// followed by the name in upper case, each such name once, with the
    /// value of its last binding.
    pub fn to_env_vars(&self) -> (r: Vec<(String, String)>)
        ensures
            forall|i: int, j: int| 0 <= i < j < r.len() ==> r@[i].0@ != r@[j].0@,
            forall|i: int|
                0 <= i < r.len() ==> lookup(env_vars_spec(self@), #[trigger] r@[i].0@) == Some(r@[i].1@),
            forall|k: Seq<char>|
                #[trigger] lookup(env_vars_spec(self@), k) is Some ==> exists|i: int|
                    0 <= i < r.len() && r@[i].0@ == k,
    {
        let mut r: Vec<(String, String)> = Vec::new();
        let mut i: usize = 0;
        while i < self.vars.len()
            invariant
                i <= self.vars.len(),
                forall|a: int, b: int| 0 <= a < b < r.len() ==> r@[a].0@ != r@[b].0@,
                forall|a: int|
                    0 <= a < r.len() ==> lookup(env_vars_spec(self@.take(i as int)), #[trigger] r@[a].0@)
                        == Some(r@[a].1@),
                forall|k: Seq<char>|
                    #[trigger] lookup(env_vars_spec(self@.take(i as int)), k) is Some ==> exists|a: int|
                        0 <= a < r.len() && r@[a].0@ == k,
            decreases self.vars.len() - i,
        {
            let ghost e0 = env_vars_spec(self@.take(i as int));
            let ghost old_r = r@;
            let mut key = chars_of("PAWL_");
            extend_chars(&mut key, &to_ascii_upper_vec(&chars_of(self.vars[i].0.as_str())));
            let ks = string_of(&key);
            let v = self.vars[i].1.clone();
            let ghost e1 = e0.push((ks@, v@));
            assert(self@.take(i + 1) =~= self@.take(i as int).push(self@[i as int]));
            assert(env_vars_spec(self@.take(i + 1)) =~= e1);
            assert(e1.drop_last() =~= e0);
            let found = find_name(&r, ks.as_str());
            let ghost idx: int = match found {
                Some(j) => j as int,
                None => old_r.len() as int,
            };
            match found {
                Some(j) => {
                    r.set(j, (ks, v));
                },
                None => {
                    r.push((ks, v));
                },
            }
            assert(0 <= idx < r.len() && r@[idx].0@ == e1.last().0 && r@[idx].1@ == e1.last().1);
            assert forall|a: int| 0 <= a < r.len() && a != idx implies r@[a] == old_r[a] by {}
            assert forall|k: Seq<char>| #[trigger] lookup(e1, k) is Some implies exists|a: int|
                0 <= a < r.len() && r@[a].0@ == k by {
                if k != e1.last().0 {
                    assert(lookup(e1, k) == lookup(e0, k));
                    let a0 = choose|a: int| 0 <= a < old_r.len() && old_r[a].0@ == k;
                    assert(r@[a0].0@ == k);
                } else {
                    assert(r@[idx].0@ == k);
                }
            }
            i = i + 1;
        }
        assert(self@.take(i as int) =~= self@);
        r
    }

    /// Adds bindings, in order.
    pub fn extend(&mut self, extra: Vec<(String, String)>)
        ensures
            final(self)@ == old(self)@ + pair_views(extra@),
    {
        let mut i: usize = 0;
        while i < extra.len()
            invariant
                i <= extra.len(),
                self@ == old(self)@ + pair_views(extra@).take(i as int),
            decreases extra.len() - i,
        {
            let (k, v) = (extra[i].0.clone(), extra[i].1.clone());
            push_pair(&mut self.vars, k, v);
            i = i + 1;
            assert(self@ =~= old(self)@ + pair_views(extra@).take(i as int));
        }
        assert(pair_views(extra@).take(i as int) =~= pair_views(extra@));
    }
}

/// Reading a variable gives back the value written last under its name,
/// and writing one name leaves every other name's value as it was.
pub proof fn law_get_after_var(
    vars: Seq<(Seq<char>, Seq<char>)>,
    name: Seq<char>,
    value: Seq<char>,
    other: Seq<char>,
)
    requires
        other != name,
    ensures
        lookup(vars.push((name, value)), name) == Some(value),
        lookup(vars.push((name, value)), other) == lookup(vars, other),
{
    assert(vars.push((name, value)).drop_last() =~= vars);
}

/// Expanding with one more binding expands with the earlier ones first,
/// then replaces the new binding's placeholder.
pub proof fn law_expand_in_binding_order(
    vars: Seq<(Seq<char>, Seq<char>)>,
    name: Seq<char>,
    value: Seq<char>,
    t: Seq<char>,
)
    ensures
        expand_spec(vars.push((name, value)), t) == replace_all(
            expand_spec(vars, t),
            placeholder(name),
            value,
        ),
{
    assert(vars.push((name, value)).drop_last() =~= vars);
}

/// Expanding with no bindings leaves a template as it is.
pub proof fn law_expand_without_bindings(t: Seq<char>)
    ensures
        expand_spec(Seq::<(Seq<char>, Seq<char>)>::empty(), t) == t,
{
}

// ---------------------------------------------------------------------------
// Expansion of a template made of text and placeholders
// ---------------------------------------------------------------------------

/// `s` holds no `c`.
pub open spec fn free_of(s: Seq<char>, c: char) -> bool {
    forall|j: int| 0 <= j < s.len() ==> #[trigger] s[j] != c
}

/// Bindings whose names are distinct and hold none of `$`, `{` and `}`,
/// and whose values hold no `$`.
pub open spec fn plain_bindings(vars: Seq<(Seq<char>, Seq<char>)>) -> bool {
    &&& forall|i: int|
        0 <= i < vars.len() ==> free_of(#[trigger] vars[i].0, '$') && free_of(vars[i].0, '{')
            && free_of(vars[i].0, '}') && free_of(vars[i].1, '$')
    &&& forall|i: int, j: int| 0 <= i < j < vars.len() ==> vars[i].0 != vars[j].0
}

/// A template as parts: each a text without `$`, then the placeholder of
/// the binding it names (none where the index is negative).
pub open spec fn plain_parts(vars: Seq<(Seq<char>, Seq<char>)>, parts: Seq<(Seq<char>, int)>) -> bool {
    forall|j: int| 0 <= j < parts.len() ==> free_of((#[trigger] parts[j]).0, '$') && parts[j].1 < vars.len()
}

/// The parts written out: the first `m` bindings show their values, the
/// others their placeholders.
pub open spec fn written(vars: Seq<(Seq<char>, Seq<char>)>, parts: Seq<(Seq<char>, int)>, m: int) -> Seq<
    char,
>
    decreases parts.len(),
{
    if parts.len() == 0 {
        seq![]
    } else {
        let i = parts[0].1;
        parts[0].0 + (if 0 <= i < vars.len() {
            if i < m {
                vars[i].1
            } else {
                placeholder(vars[i].0)
            }
        } else {
            seq![]
        }) + written(vars, parts.drop_first(), m)
    }
}

proof fn lemma_replace_past_text(s: Seq<char>, rest: Seq<char>, p: Seq<char>, r: Seq<char>)
    requires
        p.len() > 0,
        p[0] == '$',
        free_of(s, '$'),
    ensures
        replace_all(s + rest, p, r) == s + replace_all(rest, p, r),
    decreases s.len(),
{
    if s.len() == 0 {
        assert(s + rest =~= rest);
        assert(s + replace_all(rest, p, r) =~= replace_all(rest, p, r));
    } else {
        let t = s + rest;
        assert(!matches_at(t, p, 0)) by {
            if matches_at(t, p, 0) {
                assert(t.subrange(0, p.len() as int)[0] == t[0]);
                assert(t[0] == s[0]);
            }
        }
        lemma_replace_all_step(t, p, r);
        assert(t.drop_first() =~= s.drop_first() + rest);
        lemma_replace_past_text(s.drop_first(), rest, p, r);
        assert(seq![t[0]] + (s.drop_first() + replace_all(rest, p, r)) =~= s + replace_all(rest, p, r));
    }
}

proof fn lemma_placeholder_shape(k: Seq<char>)
    requires
        free_of(k, '$'),
    ensures
        placeholder(k).len() == k.len() + 3,
        placeholder(k)[0] == '$',
        placeholder(k)[1] == '{',
        placeholder(k)[k.len() as int + 2] == '}',
        forall|j: int| 0 <= j < k.len() ==> placeholder(k)[2 + j] == k[j],
        free_of(placeholder(k).drop_first(), '$'),
{
    reveal_strlit("${");
    reveal_strlit("}");
    let q = placeholder(k);
    assert forall|j: int| 0 <= j < q.drop_first().len() implies #[trigger] q.drop_first()[j] != '$' by {
        assert(q.drop_first()[j] == q[j + 1]);
        if j >= 1 && j < k.len() + 1 {
            assert(q[j + 1] == k[j - 1]);
        }
    }
}

proof fn lemma_replace_past_other(kq: Seq<char>, kp: Seq<char>, rest: Seq<char>, r: Seq<char>)
    requires
        kq != kp,
        free_of(kq, '$'),
        free_of(kp, '$'),
        free_of(kq, '}'),
        free_of(kp, '}'),
    ensures
        replace_all(placeholder(kq) + rest, placeholder(kp), r) == placeholder(kq) + replace_all(
            rest,
            placeholder(kp),
            r,
        ),
{
    let q = placeholder(kq);
    let p = placeholder(kp);
    let t = q + rest;
    lemma_placeholder_shape(kq);
    lemma_placeholder_shape(kp);
    assert(!matches_at(t, p, 0)) by {
        if matches_at(t, p, 0) {
            let w = t.subrange(0, p.len() as int);
            assert(w == p);
            if kq.len() < kp.len() {
                let x: int = kq.len() as int + 2;
                assert(t[x] == q[x]);
                assert(w[x] == t[x]);
                assert(p[x] == kp[kq.len() as int]);
            } else if kq.len() > kp.len() {
                let x: int = kp.len() as int + 2;
                assert(w[x] == t[x]);
                assert(t[x] == q[x]);
                assert(q[x] == kq[kp.len() as int]);
            } else {
                assert forall|j: int| 0 <= j < kq.len() implies kq[j] == kp[j] by {
                    assert(w[2 + j] == t[2 + j]);
                    assert(t[2 + j] == q[2 + j]);
                }
                assert(kq =~= kp);
            }
        }
    }
    lemma_replace_all_step(t, p, r);
    assert(t.drop_first() =~= q.drop_first() + rest);
    lemma_replace_past_text(q.drop_first(), rest, p, r);
    assert(seq![t[0]] + (q.drop_first() + replace_all(rest, p, r)) =~= q + replace_all(rest, p, r));
}

/// Replacing the placeholder of binding `m` turns exactly its parts into
/// its value.
proof fn lemma_written_step(vars: Seq<(Seq<char>, Seq<char>)>, parts: Seq<(Seq<char>, int)>, m: int)
    requires
        plain_bindings(vars),
        plain_parts(vars, parts),
        0 <= m < vars.len(),
    ensures
        replace_all(written(vars, parts, m), placeholder(vars[m].0), vars[m].1) == written(
            vars,
            parts,
            m + 1,
        ),
    decreases parts.len(),
{
    let p = placeholder(vars[m].0);
    let r = vars[m].1;
    lemma_placeholder_shape(vars[m].0);
    if parts.len() == 0 {
        assert(replace_all(Seq::<char>::empty(), p, r) == Seq::<char>::empty());
    } else {
        let rest = parts.drop_first();
        assert(plain_parts(vars, rest)) by {
            assert forall|j: int| 0 <= j < rest.len() implies free_of((#[trigger] rest[j]).0, '$')
                && rest[j].1 < vars.len() by {
                assert(rest[j] == parts[j + 1]);
            }
        }
        lemma_written_step(vars, rest, m);
        let s0 = parts[0].0;
        let i = parts[0].1;
        assert(free_of(s0, '$') && i < vars.len()) by {
            assert(free_of((parts[0]).0, '$'));
        }
        let rm = written(vars, rest, m);
        let rm1 = written(vars, rest, m + 1);
        let mid = if 0 <= i < vars.len() {
            if i < m {
                vars[i].1
            } else {
                placeholder(vars[i].0)
            }
        } else {
            Seq::<char>::empty()
        };
        assert(written(vars, parts, m) =~= s0 + (mid + rm));
        lemma_replace_past_text(s0, mid + rm, p, r);
        if i < 0 {
            assert(mid + rm =~= rm);
            assert(written(vars, parts, m + 1) =~= s0 + rm1);
        } else if i < m {
            assert(free_of(vars[i].1, '$'));
            lemma_replace_past_text(vars[i].1, rm, p, r);
            assert(written(vars, parts, m + 1) =~= s0 + (vars[i].1 + rm1));
        } else if i == m {
            assert(matches_at(mid + rm, p, 0)) by {
                assert((mid + rm).subrange(0, p.len() as int) =~= p);
            }
            lemma_replace_all_match(mid + rm, p, r);
            assert((mid + rm).skip(p.len() as int) =~= rm);
            assert(written(vars, parts, m + 1) =~= s0 + (r + rm1));
        } else {
            assert(vars[i].0 != vars[m].0);
            assert(free_of(vars[i].0, '$') && free_of(vars[i].0, '}'));
            lemma_replace_past_other(vars[i].0, vars[m].0, rm, r);
            assert(written(vars, parts, m + 1) =~= s0 + (placeholder(vars[i].0) + rm1));
        }
    }
}

/// Expanding with the first `m` bindings writes their values in place.
proof fn lemma_expand_prefix(vars: Seq<(Seq<char>, Seq<char>)>, parts: Seq<(Seq<char>, int)>, m: int)
    requires
        plain_bindings(vars),
        plain_parts(vars, parts),
        0 <= m <= vars.len(),
    ensures
        expand_spec(vars.take(m), written(vars, parts, 0)) == written(vars, parts, m),
    decreases m,
{
    if m > 0 {
        lemma_expand_prefix(vars, parts, m - 1);
        assert(vars.take(m).drop_last() =~= vars.take(m - 1));
        assert(vars.take(m).last() == vars[m - 1]);
        lemma_written_step(vars, parts, m - 1);
    } else {
        assert(vars.take(0).len() == 0);
    }
}

/// With distinct names, each name reads back its own value.
proof fn lemma_lookup_distinct(vars: Seq<(Seq<char>, Seq<char>)>)
    requires
        forall|i: int, j: int| 0 <= i < j < vars.len() ==> vars[i].0 != vars[j].0,
    ensures
        forall|i: int| 0 <= i < vars.len() ==> lookup(vars, #[trigger] vars[i].0) == Some(vars[i].1),
    decreases vars.len(),
{
    if vars.len() > 0 {
        let init = vars.drop_last();
        lemma_lookup_distinct(init);
        assert forall|i: int| 0 <= i < vars.len() implies lookup(vars, #[trigger] vars[i].0) == Some(
            vars[i].1,
        ) by {
            if i < vars.len() - 1 {
                assert(init[i] == vars[i]);
                assert(vars.last().0 != vars[i].0);
            }
        }
    }
}

/// With distinct names free of `$`, `{` and `}`, and values free of `$`,
/// expanding a template made of text without `$` and placeholders of bound
/// names puts every value, the one the name reads back, in place of its
/// placeholder at once: the text stays as it is and no value is expanded
/// again.
pub proof fn law_expand_is_simultaneous(vars: Seq<(Seq<char>, Seq<char>)>, parts: Seq<(Seq<char>, int)>)
    requires
        plain_bindings(vars),
        plain_parts(vars, parts),
    ensures
        expand_spec(vars, written(vars, parts, 0)) == written(vars, parts, vars.len() as int),
        forall|i: int| 0 <= i < vars.len() ==> lookup(vars, #[trigger] vars[i].0) == Some(vars[i].1),
{
    lemma_lookup_distinct(vars);
    lemma_expand_prefix(vars, parts, vars.len() as int);
    assert(vars.take(vars.len() as int) =~= vars);
}

/// Every `$` of the template starts the placeholder of a bound name.
pub open spec fn dollars_are_placeholders(vars: Seq<(Seq<char>, Seq<char>)>, t: Seq<char>) -> bool {
    forall|j: int|
        0 <= j < t.len() && #[trigger] t[j] == '$' ==> exists|i: int|
            0 <= i < vars.len() && matches_at(t, placeholder(vars[i].0), j)
}

/// Such a template is text without `$` and placeholders of bound names.
pub proof fn lemma_template_parts(vars: Seq<(Seq<char>, Seq<char>)>, t: Seq<char>) -> (parts: Seq<
    (Seq<char>, int),
>)
    requires
        plain_bindings(vars),
        dollars_are_placeholders(vars, t),
    ensures
        plain_parts(vars, parts),
        written(vars, parts, 0) == t,
    decreases t.len(),
{
    lemma_index_of(t, '$');
    let d = index_of(t, '$');
    if d < 0 {
        let parts = seq![(t, -1int)];
        assert(parts.drop_first() =~= Seq::<(Seq<char>, int)>::empty());
        assert(written(vars, parts.drop_first(), 0) =~= Seq::<char>::empty());
        assert(written(vars, parts, 0) =~= t);
        assert(plain_parts(vars, parts)) by {
            assert forall|j: int| 0 <= j < parts.len() implies free_of((#[trigger] parts[j]).0, '$')
                && parts[j].1 < vars.len() by {
                assert(parts[j] == (t, -1int));
            }
        }
        parts
    } else {
        assert(t[d] == '$');
        let i = choose|i: int| 0 <= i < vars.len() && matches_at(t, placeholder(vars[i].0), d);
        let ph = placeholder(vars[i].0);
        lemma_placeholder_shape(vars[i].0);
        let pre = t.take(d);
        let rest = t.skip(d + ph.len());
        assert forall|j: int| 0 <= j < rest.len() && #[trigger] rest[j] == '$' implies exists|i2: int|
            0 <= i2 < vars.len() && matches_at(rest, placeholder(vars[i2].0), j) by {
            let jj = d + ph.len() + j;
            assert(t[jj] == rest[j]);
            let i2 = choose|i2: int| 0 <= i2 < vars.len() && matches_at(t, placeholder(vars[i2].0), jj);
            let q = placeholder(vars[i2].0);
            assert(rest.subrange(j, j + q.len()) =~= t.subrange(jj, jj + q.len()));
            assert(matches_at(rest, q, j));
        }
        let parts_r = lemma_template_parts(vars, rest);
        let parts = seq![(pre, i)] + parts_r;
        assert(parts[0] == (pre, i));
        assert(parts.drop_first() =~= parts_r);
        assert(t.subrange(d, d + ph.len()) == ph);
        assert(t =~= pre + ph + rest);
        assert(written(vars, parts, 0) == pre + ph + written(vars, parts_r, 0));
        assert(plain_parts(vars, parts)) by {
            assert forall|j: int| 0 <= j < parts.len() implies free_of((#[trigger] parts[j]).0, '$')
                && parts[j].1 < vars.len() by {
                if j == 0 {
                    assert forall|x: int| 0 <= x < pre.len() implies #[trigger] pre[x] != '$' by {
                        assert(pre[x] == t[x]);
                    }
                } else {
                    assert(parts[j] == parts_r[j - 1]);
                }
            }
        }
        parts
    }
}

/// Under the same conditions, expanding any template whose every `$`
/// starts the placeholder of a bound name puts the values in place at once.
pub proof fn law_expand_any_template(vars: Seq<(Seq<char>, Seq<char>)>, t: Seq<char>)
    requires
        plain_bindings(vars),
        dollars_are_placeholders(vars, t),
    ensures
        exists|parts: Seq<(Seq<char>, int)>|
            plain_parts(vars, parts) && written(vars, parts, 0) == t && expand_spec(vars, t) == written(
                vars,
                parts,
                vars.len() as int,
            ),
{
    let parts = lemma_template_parts(vars, t);
    law_expand_is_simultaneous(vars, parts);
}

} // verus!
