//! Character-level text handling: the mathematical meaning of the few
//! string operations the library relies on (trimming, line splitting,
//! searching, replacing) and verified implementations of them over `Vec<char>`.
use vstd::prelude::*;

verus! {

// ---------------------------------------------------------------------------
// Specifications
// ---------------------------------------------------------------------------

/// Unicode `White_Space`, the property that `char::is_whitespace` tests.
pub open spec fn is_ws(c: char) -> bool {
    let n = c as u32;
    ||| 0x09 <= n <= 0x0d
    ||| n == 0x20
    ||| n == 0x85
    ||| n == 0xa0
    ||| n == 0x1680
    ||| 0x2000 <= n <= 0x200a
    ||| n == 0x2028
    ||| n == 0x2029
    ||| n == 0x202f
    ||| n == 0x205f
    ||| n == 0x3000
}

/// `s` without its leading whitespace.
pub open spec fn trim_start(s: Seq<char>) -> Seq<char>
    decreases s.len(),
{
    if s.len() > 0 && is_ws(s[0]) {
        trim_start(s.drop_first())
    } else {
        s
    }
}

/// `s` without its trailing whitespace.
pub open spec fn trim_end(s: Seq<char>) -> Seq<char>
    decreases s.len(),
{
    if s.len() > 0 && is_ws(s.last()) {
        trim_end(s.drop_last())
    } else {
        s
    }
}

/// `s` without leading and trailing whitespace.
pub open spec fn trim(s: Seq<char>) -> Seq<char> {
    trim_end(trim_start(s))
}

/// `s` without the leading run of `c`.
pub open spec fn trim_start_char(s: Seq<char>, c: char) -> Seq<char>
    decreases s.len(),
{
    if s.len() > 0 && s[0] == c {
        trim_start_char(s.drop_first(), c)
    } else {
        s
    }
}

/// Position of the first `c` in `s`, or -1.
pub open spec fn index_of(s: Seq<char>, c: char) -> int
    decreases s.len(),
{
    if s.len() == 0 {
        -1
    } else if s[0] == c {
        0
    } else {
        let r = index_of(s.drop_first(), c);
        if r < 0 {
            -1
        } else {
            r + 1
        }
    }
}

/// `p` occurs in `s` at position `i`.
pub open spec fn matches_at(s: Seq<char>, p: Seq<char>, i: int) -> bool {
    0 <= i && i + p.len() <= s.len() && s.subrange(i, i + p.len()) == p
}

/// Position of the first occurrence of `p` in `s` at or after `i`, or -1.
pub open spec fn find_from(s: Seq<char>, p: Seq<char>, i: int) -> int
    decreases s.len() - i,
{
    if i < 0 || p.len() == 0 || i + p.len() > s.len() {
        -1
    } else if matches_at(s, p, i) {
        i
    } else {
        find_from(s, p, i + 1)
    }
}

/// Position of the first occurrence of the non-empty pattern `p` in `s`, or -1.
pub open spec fn find(s: Seq<char>, p: Seq<char>) -> int {
    find_from(s, p, 0)
}

pub open spec fn starts_with(s: Seq<char>, p: Seq<char>) -> bool {
    p.len() <= s.len() && s.take(p.len() as int) == p
}

pub open spec fn ends_with(s: Seq<char>, p: Seq<char>) -> bool {
    p.len() <= s.len() && s.skip(s.len() - p.len()) == p
}

pub open spec fn contains_char(s: Seq<char>, c: char) -> bool {
    exists|i: int| 0 <= i < s.len() && s[i] == c
}

pub open spec fn contains(s: Seq<char>, p: Seq<char>) -> bool {
    exists|i: int| matches_at(s, p, i)
}

/// A trailing carriage return removed.
pub open spec fn strip_cr(s: Seq<char>) -> Seq<char> {
    if s.len() > 0 && s.last() == '\r' {
        s.drop_last()
    } else {
        s
    }
}

/// The lines of `s` as `str::lines` gives them: pieces between line feeds,
/// each without a final carriage return, and no empty piece after a final
/// line feed.
pub open spec fn lines(s: Seq<char>) -> Seq<Seq<char>>
    decreases s.len(),
{
    let i = index_of(s, '\n');
    if s.len() == 0 {
        seq![]
    } else if i < 0 || i >= s.len() {
        seq![s]
    } else {
        seq![strip_cr(s.take(i))] + lines(s.skip(i + 1))
    }
}

/// The pieces of `s` between occurrences of `c`, as `str::split` gives them.
pub open spec fn split(s: Seq<char>, c: char) -> Seq<Seq<char>>
    decreases s.len(),
{
    let i = index_of(s, c);
    if i < 0 || i >= s.len() {
        seq![s]
    } else {
        seq![s.take(i)] + split(s.skip(i + 1), c)
    }
}

/// Every non-overlapping occurrence of the non-empty `p`, from the left,
/// replaced by `r`.
pub open spec fn replace_all(s: Seq<char>, p: Seq<char>, r: Seq<char>) -> Seq<char>
    decreases s.len(),
{
    let i = find(s, p);
    if p.len() == 0 || i < 0 || i + p.len() > s.len() {
        s
    } else {
        s.take(i) + r + replace_all(s.skip(i + p.len()), p, r)
    }
}

pub open spec fn ascii_upper(c: char) -> char {
    if 'a' <= c <= 'z' {
        ((c as u32) - 32) as char
    } else {
        c
    }
}

pub open spec fn ascii_lower(c: char) -> char {
    if 'A' <= c <= 'Z' {
        ((c as u32) + 32) as char
    } else {
        c
    }
}

pub open spec fn to_ascii_upper(s: Seq<char>) -> Seq<char> {
    s.map_values(|c: char| ascii_upper(c))
}

pub open spec fn to_ascii_lower(s: Seq<char>) -> Seq<char> {
    s.map_values(|c: char| ascii_lower(c))
}

pub open spec fn digit_char(d: nat) -> char {
    if d < 10 {
        (('0' as u32) + d) as char
    } else {
        '0'
    }
}

/// Decimal digits of a natural number, most significant first.
pub open spec fn nat_digits(n: nat) -> Seq<char>
    decreases n,
{
    if n < 10 {
        seq![digit_char(n)]
    } else {
        nat_digits(n / 10).push(digit_char(n % 10))
    }
}

/// The decimal form of an integer, as `to_string` writes it.
pub open spec fn decimal(n: int) -> Seq<char> {
    if n < 0 {
        seq!['-'] + nat_digits((-n) as nat)
    } else {
        nat_digits(n as nat)
    }
}

/// The pieces joined, with `sep` between neighbours.
pub open spec fn join(parts: Seq<Seq<char>>, sep: Seq<char>) -> Seq<char>
    decreases parts.len(),
{
    if parts.len() == 0 {
        seq![]
    } else if parts.len() == 1 {
        parts[0]
    } else {
        join(parts.drop_last(), sep) + sep + parts.last()
    }
}

// ---------------------------------------------------------------------------
// Lemmas
// ---------------------------------------------------------------------------

pub proof fn lemma_index_of(s: Seq<char>, c: char)
    ensures
        -1 <= index_of(s, c) < s.len(),
        index_of(s, c) == -1 ==> (forall|j: int| 0 <= j < s.len() ==> s[j] != c),
        index_of(s, c) >= 0 ==> s[index_of(s, c)] == c && (forall|j: int|
            0 <= j < index_of(s, c) ==> s[j] != c),
    decreases s.len(),
{
    if s.len() > 0 && s[0] != c {
        lemma_index_of(s.drop_first(), c);
        let r = index_of(s.drop_first(), c);
        assert forall|j: int| 0 < j < s.len() implies s[j] == s.drop_first()[j - 1] by {}
        if r >= 0 {
            assert forall|j: int| 0 <= j < r + 1 implies s[j] != c by {
                if j > 0 {
                    assert(s[j] == s.drop_first()[j - 1]);
                }
            }
        }
    }
}

/// The first position at which a condition on the characters holds
/// determines `index_of`.
pub proof fn lemma_index_of_at(s: Seq<char>, c: char, k: int)
    requires
        0 <= k <= s.len(),
        forall|j: int| 0 <= j < k ==> s[j] != c,
        k < s.len() ==> s[k] == c,
    ensures
        index_of(s, c) == (if k < s.len() { k } else { -1 }),
{
    lemma_index_of(s, c);
}

pub proof fn lemma_find_from(s: Seq<char>, p: Seq<char>, i: int)
    requires
        p.len() > 0,
        0 <= i,
    ensures
        ({
            let r = find_from(s, p, i);
            ||| (r == -1 && forall|j: int| i <= j ==> !matches_at(s, p, j))
            ||| (i <= r && matches_at(s, p, r) && forall|j: int|
                i <= j < r ==> !matches_at(s, p, j))
        }),
    decreases s.len() - i,
{
    if i + p.len() <= s.len() && !matches_at(s, p, i) {
        lemma_find_from(s, p, i + 1);
    }
}

pub proof fn lemma_find(s: Seq<char>, p: Seq<char>)
    requires
        p.len() > 0,
    ensures
        ({
            let r = find(s, p);
            ||| (r == -1 && forall|j: int| !matches_at(s, p, j))
            ||| (0 <= r && matches_at(s, p, r) && forall|j: int|
                0 <= j < r ==> !matches_at(s, p, j))
        }),
{
    lemma_find_from(s, p, 0);
}

/// The first match determines `find`.
pub proof fn lemma_find_at(s: Seq<char>, p: Seq<char>, k: int)
    requires
        p.len() > 0,
        0 <= k,
        forall|j: int| 0 <= j < k ==> !matches_at(s, p, j),
        matches_at(s, p, k) || k + p.len() > s.len(),
    ensures
        find(s, p) == (if matches_at(s, p, k) { k } else { -1 }),
{
    lemma_find(s, p);
}


/// Shifting by one character shifts every match by one.
pub proof fn lemma_matches_shift(t: Seq<char>, p: Seq<char>, j: int)
    requires
        t.len() > 0,
        0 <= j,
    ensures
        matches_at(t, p, j + 1) == matches_at(t.drop_first(), p, j),
{
    if j + 1 + p.len() <= t.len() {
        assert(t.subrange(j + 1, j + 1 + p.len()) =~= t.drop_first().subrange(j, j + p.len()));
    }
}

/// Where no match starts at the front, `replace_all` keeps the first character.
pub proof fn lemma_replace_all_step(t: Seq<char>, p: Seq<char>, r: Seq<char>)
    requires
        t.len() > 0,
        p.len() > 0,
        !matches_at(t, p, 0),
    ensures
        replace_all(t, p, r) == seq![t[0]] + replace_all(t.drop_first(), p, r),
{
    let d = t.drop_first();
    lemma_find(t, p);
    lemma_find(d, p);
    let k = find(t, p);
    assert forall|j: int| 0 <= j implies matches_at(t, p, j + 1) == matches_at(d, p, j) by {
        lemma_matches_shift(t, p, j);
    }
    if k == -1 {
        assert forall|j: int| !matches_at(d, p, j) by {
            if j >= 0 {
                assert(!matches_at(t, p, j + 1));
            }
        }
        lemma_find(d, p);
        assert(find(d, p) == -1);
        assert(seq![t[0]] + d =~= t);
    } else {
        assert(k >= 1);
        assert(matches_at(d, p, k - 1));
        assert forall|j: int| 0 <= j < k - 1 implies !matches_at(d, p, j) by {
            assert(!matches_at(t, p, j + 1));
        }
        lemma_find_at(d, p, k - 1);
        assert(t.take(k) =~= seq![t[0]] + d.take(k - 1));
        assert(t.skip(k + p.len()) =~= d.skip(k - 1 + p.len()));
        assert(seq![t[0]] + (d.take(k - 1) + r + replace_all(d.skip(k - 1 + p.len()), p, r))
            =~= t.take(k) + r + replace_all(t.skip(k + p.len()), p, r));
    }
}

/// Where a match starts at the front, `replace_all` emits the replacement first.
pub proof fn lemma_replace_all_match(t: Seq<char>, p: Seq<char>, r: Seq<char>)
    requires
        p.len() > 0,
        matches_at(t, p, 0),
    ensures
        replace_all(t, p, r) == r + replace_all(t.skip(p.len() as int), p, r),
{
    lemma_find_at(t, p, 0);
    assert(t.take(0) + r =~= r);
}

/// Without any match, `replace_all` changes nothing.
pub proof fn lemma_replace_all_none(t: Seq<char>, p: Seq<char>, r: Seq<char>)
    requires
        p.len() > 0,
        forall|j: int| !matches_at(t, p, j),
    ensures
        replace_all(t, p, r) == t,
{
    lemma_find(t, p);
}

// ---------------------------------------------------------------------------
// Executable operations
// ---------------------------------------------------------------------------

/// Appends one character to a string (`String::push`).
#[verifier::external_body]
pub(crate) fn push_char(s: &mut String, c: char)
    ensures
        final(s)@ == old(s)@.push(c),
{
    s.push(c);
}

/// The characters of `s`.
pub fn chars_of(s: &str) -> (v: Vec<char>)
    ensures
        v@ == s@,
{
    broadcast use vstd::string::group_string_axioms;

    let mut v: Vec<char> = Vec::new();
    for c in it: s.chars()
        invariant
            v@ == it.seq().take(it.index() as int),
            it.seq() == s@,
    {
        v.push(c);
    }
    v
}


/// A string holding the characters of `v`.
pub fn string_of(v: &Vec<char>) -> (s: String)
    ensures
        s@ == v@,
{
    let mut s = String::new();
    let mut i: usize = 0;
    while i < v.len()
        invariant
            i <= v.len(),
            s@ == v@.take(i as int),
        decreases v.len() - i,
    {
        push_char(&mut s, v[i]);
        i = i + 1;
        assert(s@ =~= v@.take(i as int));
    }
    assert(v@.take(i as int) =~= v@);
    s
}

/// The characters `v[from..to]`.
pub fn slice(v: &Vec<char>, from: usize, to: usize) -> (r: Vec<char>)
    requires
        from <= to <= v.len(),
    ensures
        r@ == v@.subrange(from as int, to as int),
{
    let mut r: Vec<char> = Vec::new();
    let mut i = from;
    while i < to
        invariant
            from <= i <= to <= v.len(),
            r@ == v@.subrange(from as int, i as int),
        decreases to - i,
    {
        r.push(v[i]);
        i = i + 1;
        assert(r@ =~= v@.subrange(from as int, i as int));
    }
    r
}

pub fn char_is_ws(c: char) -> (b: bool)
    ensures
        b == is_ws(c),
{
    let n = c as u32;
    (0x09 <= n && n <= 0x0d) || n == 0x20 || n == 0x85 || n == 0xa0 || n == 0x1680 || (0x2000
        <= n && n <= 0x200a) || n == 0x2028 || n == 0x2029 || n == 0x202f || n == 0x205f || n
        == 0x3000
}

/// Number of leading whitespace characters; `trim_start` drops exactly these.
pub fn leading_ws(v: &Vec<char>) -> (k: usize)
    ensures
        k <= v.len(),
        trim_start(v@) == v@.skip(k as int),
{
    let mut i: usize = 0;
    assert(v@.skip(0) =~= v@);
    while i < v.len() && char_is_ws(v[i])
        invariant
            i <= v.len(),
            trim_start(v@) == trim_start(v@.skip(i as int)),
        decreases v.len() - i,
    {
        assert(v@.skip(i as int).drop_first() =~= v@.skip(i + 1));
        i = i + 1;
    }
    i
}

/// Length of `v` without its trailing whitespace; `trim_end` keeps exactly this prefix.
pub fn end_without_ws(v: &Vec<char>) -> (k: usize)
    ensures
        k <= v.len(),
        trim_end(v@) == v@.take(k as int),
{
    let mut j: usize = v.len();
    assert(v@.take(j as int) =~= v@);
    while j > 0 && char_is_ws(v[j - 1])
        invariant
            j <= v.len(),
            trim_end(v@) == trim_end(v@.take(j as int)),
        decreases j,
    {
        assert(v@.take(j as int).drop_last() =~= v@.take(j - 1));
        j = j - 1;
    }
    j
}

pub fn trim_start_vec(v: &Vec<char>) -> (r: Vec<char>)
    ensures
        r@ == trim_start(v@),
{
    let k = leading_ws(v);
    let r = slice(v, k, v.len());
    assert(r@ =~= v@.skip(k as int));
    r
}

pub fn trim_end_vec(v: &Vec<char>) -> (r: Vec<char>)
    ensures
        r@ == trim_end(v@),
{
    let k = end_without_ws(v);
    let r = slice(v, 0, k);
    assert(r@ =~= v@.take(k as int));
    r
}

pub fn trim_vec(v: &Vec<char>) -> (r: Vec<char>)
    ensures
        r@ == trim(v@),
{
    let a = trim_start_vec(v);
    trim_end_vec(&a)
}

/// `v` without its leading run of `c`.
pub fn trim_start_char_vec(v: &Vec<char>, c: char) -> (r: Vec<char>)
    ensures
        r@ == trim_start_char(v@, c),
{
    let mut i: usize = 0;
    assert(v@.skip(0) =~= v@);
    while i < v.len() && v[i] == c
        invariant
            i <= v.len(),
            trim_start_char(v@, c) == trim_start_char(v@.skip(i as int), c),
        decreases v.len() - i,
    {
        assert(v@.skip(i as int).drop_first() =~= v@.skip(i + 1));
        i = i + 1;
    }
    let r = slice(v, i, v.len());
    assert(r@ =~= v@.skip(i as int));
    r
}

/// Position of the first `c` in `v`, if any.
pub fn index_of_vec(v: &Vec<char>, c: char) -> (r: Option<usize>)
    ensures
        r is None ==> index_of(v@, c) == -1,
        r matches Some(i) ==> index_of(v@, c) == i && i < v.len(),
{
    let mut i: usize = 0;
    while i < v.len()
        invariant
            i <= v.len(),
            forall|j: int| 0 <= j < i ==> v@[j] != c,
        decreases v.len() - i,
    {
        if v[i] == c {
            proof {
                lemma_index_of_at(v@, c, i as int);
            }
            return Some(i);
        }
        i = i + 1;
    }
    proof {
        lemma_index_of_at(v@, c, i as int);
    }
    None
}

/// Whether `p` occurs in `v` at `i`.
pub fn matches_at_vec(v: &Vec<char>, p: &Vec<char>, i: usize) -> (b: bool)
    ensures
        b == matches_at(v@, p@, i as int),
{
    if i > v.len() || p.len() > v.len() - i {
        return false;
    }
    let mut k: usize = 0;
    while k < p.len()
        invariant
            i + p.len() <= v.len(),
            k <= p.len(),
            forall|j: int| 0 <= j < k ==> v@[i + j] == p@[j],
        decreases p.len() - k,
    {
        if v[i + k] != p[k] {
            assert(v@.subrange(i as int, i + p.len())[k as int] != p@[k as int]);
            return false;
        }
        k = k + 1;
    }
    assert(v@.subrange(i as int, i + p.len()) =~= p@);
    true
}

/// Position of the first occurrence of the non-empty `p` in `v`, if any.
pub fn find_vec(v: &Vec<char>, p: &Vec<char>) -> (r: Option<usize>)
    requires
        p.len() > 0,
    ensures
        r is None ==> find(v@, p@) == -1,
        r matches Some(i) ==> find(v@, p@) == i && matches_at(v@, p@, i as int),
{
    let mut i: usize = 0;
    while i < v.len() && p.len() <= v.len() - i
        invariant
            p.len() > 0,
            i <= v.len(),
            forall|j: int| 0 <= j < i ==> !matches_at(v@, p@, j),
        decreases v.len() - i,
    {
        if matches_at_vec(v, p, i) {
            proof {
                lemma_find_at(v@, p@, i as int);
            }
            return Some(i);
        }
        i = i + 1;
    }
    proof {
        lemma_find_at(v@, p@, i as int);
    }
    None
}

/// Whether `v` and `w` hold the same characters.
pub fn vec_eq(v: &Vec<char>, w: &Vec<char>) -> (b: bool)
    ensures
        b == (v@ == w@),
{
    if v.len() != w.len() {
        return false;
    }
    let mut i: usize = 0;
    while i < v.len()
        invariant
            v.len() == w.len(),
            i <= v.len(),
            forall|j: int| 0 <= j < i ==> v@[j] == w@[j],
        decreases v.len() - i,
    {
        if v[i] != w[i] {
            return false;
        }
        i = i + 1;
    }
    assert(v@ =~= w@);
    true
}

pub fn starts_with_vec(v: &Vec<char>, p: &Vec<char>) -> (b: bool)
    ensures
        b == starts_with(v@, p@),
{
    let b = matches_at_vec(v, p, 0);
    assert(p.len() <= v.len() ==> v@.subrange(0, p.len() as int) =~= v@.take(p.len() as int));
    b
}

pub fn ends_with_vec(v: &Vec<char>, p: &Vec<char>) -> (b: bool)
    ensures
        b == ends_with(v@, p@),
{
    if p.len() > v.len() {
        return false;
    }
    let b = matches_at_vec(v, p, v.len() - p.len());
    assert(v@.subrange(v.len() - p.len(), v.len() as int) =~= v@.skip(v.len() - p.len()));
    b
}

pub fn contains_char_vec(v: &Vec<char>, c: char) -> (b: bool)
    ensures
        b == contains_char(v@, c),
{
    let r = index_of_vec(v, c);
    proof {
        lemma_index_of(v@, c);
    }
    r.is_some()
}

pub fn contains_vec(v: &Vec<char>, p: &Vec<char>) -> (b: bool)
    requires
        p.len() > 0,
    ensures
        b == contains(v@, p@),
{
    let r = find_vec(v, p);
    proof {
        lemma_find(v@, p@);
    }
    r.is_some()
}


/// The views of a sequence of character vectors.
pub open spec fn views(s: Seq<Vec<char>>) -> Seq<Seq<char>> {
    s.map_values(|l: Vec<char>| l@)
}

pub fn strip_cr_vec(v: Vec<char>) -> (r: Vec<char>)
    ensures
        r@ == strip_cr(v@),
{
    let mut v = v;
    if v.len() > 0 && v[v.len() - 1] == '\r' {
        v.pop();
    }
    v
}

/// The lines of `v` (see `lines`).
pub fn lines_vec(v: &Vec<char>) -> (r: Vec<Vec<char>>)
    ensures
        views(r@) == lines(v@),
{
    let mut out: Vec<Vec<char>> = Vec::new();
    let mut st: usize = 0;
    let mut i: usize = 0;
    assert(v@.skip(0) =~= v@);
    while i < v.len()
        invariant
            st <= i <= v.len(),
            views(out@) + lines(v@.skip(st as int)) == lines(v@),
            forall|j: int| st <= j < i ==> v@[j] != '\n',
        decreases v.len() - i,
    {
        if v[i] == '\n' {
            let ghost t = v@.skip(st as int);
            proof {
                lemma_index_of_at(t, '\n', i - st);
                assert(t.take(i - st) =~= v@.subrange(st as int, i as int));
                assert(t.skip(i - st + 1) =~= v@.skip(i + 1));
            }
            let line = slice(v, st, i);
            let line = strip_cr_vec(line);
            let ghost before = out@;
            out.push(line);
            proof {
                assert(views(out@) =~= views(before) + seq![strip_cr(v@.subrange(st as int, i as int))]);
            }
            st = i + 1;
        }
        i = i + 1;
    }
    let ghost t = v@.skip(st as int);
    if st < v.len() {
        proof {
            lemma_index_of_at(t, '\n', t.len() as int);
        }
        let line = slice(v, st, v.len());
        let ghost before = out@;
        out.push(line);
        proof {
            assert(line@ =~= t);
            assert(views(out@) =~= views(before) + seq![t]);
        }
    } else {
        assert(t.len() == 0);
        assert(views(out@) + lines(t) =~= views(out@));
    }
    out
}

/// The pieces of `v` between occurrences of `c` (see `split`).
pub fn split_vec(v: &Vec<char>, c: char) -> (r: Vec<Vec<char>>)
    ensures
        views(r@) == split(v@, c),
{
    let mut out: Vec<Vec<char>> = Vec::new();
    let mut st: usize = 0;
    let mut i: usize = 0;
    assert(v@.skip(0) =~= v@);
    while i < v.len()
        invariant
            st <= i <= v.len(),
            views(out@) + split(v@.skip(st as int), c) == split(v@, c),
            forall|j: int| st <= j < i ==> v@[j] != c,
        decreases v.len() - i,
    {
        if v[i] == c {
            let ghost t = v@.skip(st as int);
            proof {
                lemma_index_of_at(t, c, i - st);
                assert(t.take(i - st) =~= v@.subrange(st as int, i as int));
                assert(t.skip(i - st + 1) =~= v@.skip(i + 1));
            }
            let piece = slice(v, st, i);
            let ghost before = out@;
            out.push(piece);
            proof {
                assert(views(out@) =~= views(before) + seq![v@.subrange(st as int, i as int)]);
            }
            st = i + 1;
        }
        i = i + 1;
    }
    let ghost t = v@.skip(st as int);
    proof {
        lemma_index_of_at(t, c, t.len() as int);
    }
    let piece = slice(v, st, v.len());
    let ghost before = out@;
    out.push(piece);
    proof {
        assert(piece@ =~= t);
        assert(views(out@) =~= views(before) + seq![t]);
    }
    out
}

/// Appends the characters of `w` to `out`.
pub fn extend_chars(out: &mut Vec<char>, w: &Vec<char>)
    ensures
        final(out)@ == old(out)@ + w@,
{
    let mut i: usize = 0;
    while i < w.len()
        invariant
            i <= w.len(),
            out@ == old(out)@ + w@.take(i as int),
        decreases w.len() - i,
    {
        out.push(w[i]);
        i = i + 1;
        assert(out@ =~= old(out)@ + w@.take(i as int));
    }
    assert(w@.take(i as int) =~= w@);
}

/// `v` with every occurrence of the non-empty `p` replaced by `r` (see `replace_all`).
pub fn replace_all_vec(v: &Vec<char>, p: &Vec<char>, r: &Vec<char>) -> (out: Vec<char>)
    requires
        p.len() > 0,
    ensures
        out@ == replace_all(v@, p@, r@),
{
    let mut out: Vec<char> = Vec::new();
    let mut i: usize = 0;
    assert(v@.skip(0) =~= v@);
    while i < v.len()
        invariant
            p.len() > 0,
            i <= v.len(),
            out@ + replace_all(v@.skip(i as int), p@, r@) == replace_all(v@, p@, r@),
        decreases v.len() - i,
    {
        let ghost t = v@.skip(i as int);
        if matches_at_vec(v, p, i) {
            proof {
                assert(v@.subrange(i as int, i + p.len()) =~= t.subrange(0, p.len() as int));
                lemma_replace_all_match(t, p@, r@);
                assert(t.skip(p.len() as int) =~= v@.skip(i + p.len()));
            }
            let ghost before = out@;
            extend_chars(&mut out, r);
            i = i + p.len();
            proof {
                assert(before + (r@ + replace_all(v@.skip(i as int), p@, r@)) =~= out@
                    + replace_all(v@.skip(i as int), p@, r@));
            }
        } else {
            proof {
                if i + p.len() <= v.len() {
                    assert(v@.subrange(i as int, i + p.len()) =~= t.subrange(0, p.len() as int));
                }
                lemma_replace_all_step(t, p@, r@);
                assert(t.drop_first() =~= v@.skip(i + 1));
            }
            let ghost before = out@;
            out.push(v[i]);
            i = i + 1;
            proof {
                assert(before + (seq![t[0]] + replace_all(v@.skip(i as int), p@, r@)) =~= out@
                    + replace_all(v@.skip(i as int), p@, r@));
            }
        }
    }
    proof {
        assert(v@.skip(i as int).len() == 0);
        lemma_replace_all_none(v@.skip(i as int), p@, r@);
        assert(out@ + v@.skip(i as int) =~= out@);
    }
    out
}

pub fn ascii_upper_char(c: char) -> (d: char)
    ensures
        d == ascii_upper(c),
{
    if 'a' <= c && c <= 'z' {
        ((c as u8) - 32) as char
    } else {
        c
    }
}

pub fn ascii_lower_char(c: char) -> (d: char)
    ensures
        d == ascii_lower(c),
{
    if 'A' <= c && c <= 'Z' {
        ((c as u8) + 32) as char
    } else {
        c
    }
}

pub fn to_ascii_upper_vec(v: &Vec<char>) -> (r: Vec<char>)
    ensures
        r@ == to_ascii_upper(v@),
{
    let mut r: Vec<char> = Vec::new();
    let mut i: usize = 0;
    while i < v.len()
        invariant
            i <= v.len(),
            r@ == to_ascii_upper(v@.take(i as int)),
        decreases v.len() - i,
    {
        r.push(ascii_upper_char(v[i]));
        i = i + 1;
        assert(r@ =~= to_ascii_upper(v@.take(i as int)));
    }
    assert(v@.take(i as int) =~= v@);
    r
}

pub fn to_ascii_lower_vec(v: &Vec<char>) -> (r: Vec<char>)
    ensures
        r@ == to_ascii_lower(v@),
{
    let mut r: Vec<char> = Vec::new();
    let mut i: usize = 0;
    while i < v.len()
        invariant
            i <= v.len(),
            r@ == to_ascii_lower(v@.take(i as int)),
        decreases v.len() - i,
    {
        r.push(ascii_lower_char(v[i]));
        i = i + 1;
        assert(r@ =~= to_ascii_lower(v@.take(i as int)));
    }
    assert(v@.take(i as int) =~= v@);
    r
}


fn digit_of(d: u64) -> (c: char)
    requires
        d < 10,
    ensures
        c == digit_char(d as nat),
{
    let b: u8 = 48 + (d as u8);
    assert(b as u32 == ('0' as u32) + d);
    b as char
}

fn u64_digits(n: u64) -> (v: Vec<char>)
    ensures
        v@ == nat_digits(n as nat),
    decreases n,
{
    if n < 10 {
        let mut v: Vec<char> = Vec::new();
        v.push(digit_of(n));
        assert(v@ =~= nat_digits(n as nat));
        v
    } else {
        let mut v = u64_digits(n / 10);
        v.push(digit_of(n % 10));
        v
    }
}

/// Decimal form of an unsigned number.
pub fn u64_to_decimal(n: u64) -> (s: String)
    ensures
        s@ == nat_digits(n as nat),
{
    string_of(&u64_digits(n))
}

/// Decimal form of an index or count.
pub fn usize_to_decimal(n: usize) -> (s: String)
    ensures
        s@ == decimal(n as int),
{
    u64_to_decimal(n as u64)
}

/// Decimal form of a signed number.
pub fn i64_to_decimal(n: i64) -> (s: String)
    ensures
        s@ == decimal(n as int),
{
    if n < 0 {
        let m: u64 = if n == i64::MIN {
            9223372036854775808u64
        } else {
            (-n) as u64
        };
        let digits = u64_digits(m);
        let mut s = String::new();
        push_char(&mut s, '-');
        let mut i: usize = 0;
        while i < digits.len()
            invariant
                i <= digits.len(),
                s@ == seq!['-'] + digits@.take(i as int),
            decreases digits.len() - i,
        {
            push_char(&mut s, digits[i]);
            i = i + 1;
            assert(s@ =~= seq!['-'] + digits@.take(i as int));
        }
        assert(digits@.take(i as int) =~= digits@);
        s
    } else {
        u64_to_decimal(n as u64)
    }
}

/// The pieces joined by `sep`.
pub fn join_strings(parts: &Vec<String>, sep: &str) -> (s: String)
    ensures
        s@ == join(parts@.map_values(|p: String| p@), sep@),
{
    let ghost pv = parts@.map_values(|p: String| p@);
    let mut s = String::new();
    let mut i: usize = 0;
    while i < parts.len()
        invariant
            i <= parts.len(),
            pv == parts@.map_values(|p: String| p@),
            s@ == join(pv.take(i as int), sep@),
        decreases parts.len() - i,
    {
        if i > 0 {
            s.append(sep);
        }
        s.append(parts[i].as_str());
        proof {
            assert(pv.take(i + 1).drop_last() =~= pv.take(i as int));
            if i == 0 {
                assert(pv.take(1) =~= seq![pv[0]]);
            }
        }
        i = i + 1;
    }
    assert(pv.take(i as int) =~= pv);
    s
}


/// Whether two strings hold the same characters.
pub fn str_eq(a: &str, b: &str) -> (r: bool)
    ensures
        r == (a@ == b@),
{
    vec_eq(&chars_of(a), &chars_of(b))
}

/// An owned copy of a string slice.
pub fn owned(s: &str) -> (r: String)
    ensures
        r@ == s@,
{
    String::from_str(s)
}

/// The value of a string of decimal digits.
pub open spec fn digits_value(s: Seq<char>) -> nat
    decreases s.len(),
{
    if s.len() == 0 {
        0
    } else {
        digits_value(s.drop_last()) * 10 + ((s.last() as int) - ('0' as int)) as nat
    }
}

pub open spec fn is_digit(c: char) -> bool {
    '0' <= c && c <= '9'
}

/// The digits of an unsigned number: the text without a leading `+`.
pub open spec fn unsigned_digits(s: Seq<char>) -> Seq<char> {
    if s.len() > 0 && s[0] == '+' {
        s.drop_first()
    } else {
        s
    }
}

pub open spec fn all_digits(d: Seq<char>) -> bool {
    forall|i: int| 0 <= i < d.len() ==> is_digit(#[trigger] d[i])
}

/// What `usize::from_str` accepts: an optional `+`, then at least one
/// decimal digit, for a value that fits a `usize`.
pub open spec fn parsed_usize(s: Seq<char>) -> Option<nat> {
    if unsigned_digits(s).len() > 0 && all_digits(unsigned_digits(s)) && digits_value(
        unsigned_digits(s),
    ) <= usize::MAX {
        Some(digits_value(unsigned_digits(s)))
    } else {
        None
    }
}

proof fn lemma_digits_value_grows(s: Seq<char>, k: int)
    requires
        0 <= k <= s.len(),
        all_digits(s),
    ensures
        digits_value(s.take(k)) <= digits_value(s),
    decreases s.len() - k,
{
    if k < s.len() {
        lemma_digits_value_grows(s, k + 1);
        assert(s.take(k + 1).drop_last() =~= s.take(k));
    } else {
        assert(s.take(k) =~= s);
    }
}

/// The value of the characters of `v` from `start` on, when they are one
/// or more decimal digits whose value is at most `max`.
fn digits_at_most(v: &Vec<char>, start: usize, max: u64) -> (r: Option<u64>)
    requires
        start <= v.len(),
    ensures
        match r {
            Some(n) => start < v.len() && all_digits(v@.skip(start as int)) && digits_value(
                v@.skip(start as int),
            ) == n && n <= max,
            None => !(start < v.len() && all_digits(v@.skip(start as int)) && digits_value(
                v@.skip(start as int),
            ) <= max),
        },
{
    let ghost d = v@.skip(start as int);
    if start >= v.len() {
        return None;
    }
    let mut value: u64 = 0;
    let mut i: usize = start;
    assert(d.take(0) =~= Seq::<char>::empty());
    while i < v.len()
        invariant
            start <= i <= v.len(),
            d == v@.skip(start as int),
            forall|k: int| 0 <= k < i - start ==> is_digit(#[trigger] d[k]),
            value == digits_value(d.take(i - start)),
        decreases v.len() - i,
    {
        let c = v[i];
        if !('0' <= c && c <= '9') {
            assert(d[i - start] == c);
            assert(!is_digit(d[i - start]));
            assert(!all_digits(d));
            return None;
        }
        let digit = (c as u32 - '0' as u32) as u64;
        assert(d.take(i + 1 - start).drop_last() =~= d.take(i - start));
        assert(d.take(i + 1 - start).last() == c);
        match value.checked_mul(10) {
            Some(m) => match m.checked_add(digit) {
                Some(n) => {
                    value = n;
                },
                None => {
                    proof {
                        if all_digits(d) {
                            lemma_digits_value_grows(d, i + 1 - start);
                        }
                    }
                    return None;
                },
            },
            None => {
                proof {
                    if all_digits(d) {
                        lemma_digits_value_grows(d, i + 1 - start);
                    }
                }
                return None;
            },
        }
        i = i + 1;
    }
    assert(d.take(i - start) =~= d);
    if value <= max {
        Some(value)
    } else {
        None
    }
}

/// Parses a `usize` as `str::parse::<usize>` does.
pub fn parse_usize(s: &str) -> (r: Option<usize>)
    ensures
        match parsed_usize(s@) {
            Some(n) => r == Some(n as usize),
            None => r is None,
        },
{
    let v = chars_of(s);
    let start: usize = if v.len() > 0 && v[0] == '+' {
        1
    } else {
        0
    };
    assert(unsigned_digits(s@) =~= v@.skip(start as int));
    match digits_at_most(&v, start, usize::MAX as u64) {
        Some(n) => Some(n as usize),
        None => None,
    }
}

/// What `u64::from_str` accepts.
pub open spec fn parsed_u64(s: Seq<char>) -> Option<nat> {
    if unsigned_digits(s).len() > 0 && all_digits(unsigned_digits(s)) && digits_value(
        unsigned_digits(s),
    ) <= u64::MAX {
        Some(digits_value(unsigned_digits(s)))
    } else {
        None
    }
}

/// Parses a `u64` as `str::parse::<u64>` does.
pub fn parse_u64(s: &str) -> (r: Option<u64>)
    ensures
        match parsed_u64(s@) {
            Some(n) => r == Some(n as u64),
            None => r is None,
        },
{
    let v = chars_of(s);
    let start: usize = if v.len() > 0 && v[0] == '+' {
        1
    } else {
        0
    };
    assert(unsigned_digits(s@) =~= v@.skip(start as int));
    digits_at_most(&v, start, u64::MAX)
}

/// What `i64::from_str` accepts: an optional sign, then decimal digits
/// whose value fits an `i64`.
pub open spec fn parsed_i64(s: Seq<char>) -> Option<int> {
    if s.len() > 0 && s[0] == '-' {
        let d = s.drop_first();
        if d.len() > 0 && all_digits(d) && digits_value(d) <= 0x8000_0000_0000_0000 {
            Some(-(digits_value(d) as int))
        } else {
            None
        }
    } else {
        let d = unsigned_digits(s);
        if d.len() > 0 && all_digits(d) && digits_value(d) <= i64::MAX {
            Some(digits_value(d) as int)
        } else {
            None
        }
    }
}

/// Parses an `i64` as `str::parse::<i64>` does.
pub fn parse_i64(s: &str) -> (r: Option<i64>)
    ensures
        match parsed_i64(s@) {
            Some(n) => r == Some(n as i64),
            None => r is None,
        },
{
    let v = chars_of(s);
    if v.len() > 0 && v[0] == '-' {
        assert(s@.drop_first() =~= v@.skip(1));
        match digits_at_most(&v, 1, 0x8000_0000_0000_0000u64) {
            Some(n) => if n == 0x8000_0000_0000_0000u64 {
                Some(i64::MIN)
            } else {
                Some(-(n as i64))
            },
            None => None,
        }
    } else {
        let start: usize = if v.len() > 0 && v[0] == '+' {
            1
        } else {
            0
        };
        assert(unsigned_digits(s@) =~= v@.skip(start as int));
        match digits_at_most(&v, start, i64::MAX as u64) {
            Some(n) => Some(n as i64),
            None => None,
        }
    }
}

// ---------------------------------------------------------------------------
// Lines and trimming of composed text
// ---------------------------------------------------------------------------

/// Leading whitespace does not survive `trim_start`.
pub proof fn lemma_trim_start_ws_prefix(w: Seq<char>, s: Seq<char>)
    requires
        forall|i: int| 0 <= i < w.len() ==> is_ws(#[trigger] w[i]),
    ensures
        trim_start(w + s) == trim_start(s),
    decreases w.len(),
{
    if w.len() > 0 {
        assert((w + s).drop_first() =~= w.drop_first() + s);
        assert(is_ws(w[0]));
        lemma_trim_start_ws_prefix(w.drop_first(), s);
    } else {
        assert(w + s =~= s);
    }
}

/// Text that neither starts nor ends with whitespace is its own trim.
pub proof fn lemma_trim_plain(s: Seq<char>)
    requires
        s.len() > 0,
        !is_ws(s[0]),
        !is_ws(s.last()),
    ensures
        trim(s) == s,
        trim_start(s) == s,
{
}

/// Where `a` ends in a line feed, the lines of `a + b` are those of `a`
/// followed by those of `b`.
pub proof fn lemma_lines_concat(a: Seq<char>, b: Seq<char>)
    requires
        a.len() > 0 ==> a.last() == '\n',
    ensures
        lines(a + b) == lines(a) + lines(b),
    decreases a.len(),
{
    if a.len() == 0 {
        assert(a + b =~= b);
        assert(lines(a) =~= Seq::<Seq<char>>::empty());
        assert(lines(a) + lines(b) =~= lines(b));
    } else {
        lemma_index_of(a, '\n');
        let i = index_of(a, '\n');
        assert(i >= 0) by {
            if i < 0 {
                assert(a[a.len() - 1] == '\n');
            }
        }
        assert forall|j: int| 0 <= j < i implies (a + b)[j] != '\n' by {
            assert((a + b)[j] == a[j]);
        }
        assert((a + b)[i] == a[i]);
        lemma_index_of_at(a + b, '\n', i);
        assert((a + b).take(i) =~= a.take(i));
        assert((a + b).skip(i + 1) =~= a.skip(i + 1) + b);
        let rest = a.skip(i + 1);
        assert(rest.len() > 0 ==> rest.last() == a.last());
        lemma_lines_concat(rest, b);
        assert(lines(a + b) =~= lines(a) + lines(b));
    }
}

/// A line without a line feed or a final carriage return, then a line feed,
/// is that one line.
pub proof fn lemma_lines_one(l: Seq<char>)
    requires
        forall|i: int| 0 <= i < l.len() ==> #[trigger] l[i] != '\n',
        l.len() > 0 ==> l.last() != '\r',
    ensures
        lines(l + seq!['\n']) == seq![l],
{
    let s = l + seq!['\n'];
    assert forall|j: int| 0 <= j < l.len() implies s[j] != '\n' by {
        assert(s[j] == l[j]);
    }
    lemma_index_of_at(s, '\n', l.len() as int);
    assert(s.take(l.len() as int) =~= l);
    assert(s.skip(l.len() as int + 1) =~= Seq::<char>::empty());
    assert(lines(Seq::<char>::empty()) =~= Seq::<Seq<char>>::empty());
    assert(lines(s) =~= seq![l]);
}

/// A non-empty last line without a line feed is one line.
pub proof fn lemma_lines_last(l: Seq<char>)
    requires
        l.len() > 0,
        forall|i: int| 0 <= i < l.len() ==> #[trigger] l[i] != '\n',
    ensures
        lines(l) == seq![l],
{
    lemma_index_of(l, '\n');
    if index_of(l, '\n') >= 0 {
        assert(l[index_of(l, '\n')] != '\n');
    }
}

} // verus!
