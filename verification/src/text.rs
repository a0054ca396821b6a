//! Helpers for the texts this library reads and builds, and for finding
//! things in sequences.
//!
//! Contracts speak of a text as its sequence of characters, `Seq<char>`.

use vstd::prelude::*;

verus! {

/// `s` begins with `p`.
pub open spec fn starts_with(s: Seq<char>, p: Seq<char>) -> bool {
    p.len() <= s.len() && s.subrange(0, p.len() as int) == p
}

/// `s` ends with `p`.
pub open spec fn ends_with(s: Seq<char>, p: Seq<char>) -> bool {
    p.len() <= s.len() && s.subrange(s.len() - p.len(), s.len() as int) == p
}

/// `p` occurs in `s` at position `at`.
pub open spec fn occurs_at(s: Seq<char>, at: int, p: Seq<char>) -> bool {
    0 <= at && at + p.len() <= s.len() && s.subrange(at, at + p.len()) == p
}

/// What begins a beginning of `s` begins `s`.
pub proof fn lemma_starts_with_transitive(s: Seq<char>, middle: Seq<char>, p: Seq<char>)
    requires
        starts_with(s, middle),
        starts_with(middle, p),
    ensures
        starts_with(s, p),
{
    assert(s.subrange(0, p.len() as int) =~= s.subrange(0, middle.len() as int).subrange(
        0,
        p.len() as int,
    ));
}

/// The position of the first `x` in `s`, or `s.len()` when `s` holds none.
pub open spec fn index_of<T>(s: Seq<T>, x: T) -> int
    decreases s.len(),
{
    if s.len() == 0 {
        0
    } else if s[0] == x {
        0
    } else {
        1 + index_of(s.drop_first(), x)
    }
}

/// `index_of` is within bounds, points at an `x` when inside `s`, and no `x`
/// stands before it.
pub proof fn lemma_index_of<T>(s: Seq<T>, x: T)
    ensures
        0 <= index_of(s, x) <= s.len(),
        index_of(s, x) < s.len() ==> s[index_of(s, x)] == x,
        forall|j: int| 0 <= j < index_of(s, x) ==> s[j] != x,
    decreases s.len(),
{
    if s.len() != 0 && s[0] != x {
        let t = s.drop_first();
        lemma_index_of(t, x);
        assert forall|j: int| 0 <= j < index_of(s, x) implies s[j] != x by {
            if j > 0 {
                assert(s[j] == t[j - 1]);
            }
        }
    }
}

/// A position with no `x` before it that is the end of `s` or holds an `x`
/// is `index_of(s, x)`.
pub proof fn lemma_index_of_is<T>(s: Seq<T>, x: T, i: int)
    requires
        0 <= i <= s.len(),
        i < s.len() ==> s[i] == x,
        forall|j: int| 0 <= j < i ==> s[j] != x,
    ensures
        index_of(s, x) == i,
{
    lemma_index_of(s, x);
    let k = index_of(s, x);
    if k < i {
        assert(s[k] != x);
    }
}

/// A class of characters that a scan passes over.
#[derive(Clone, Copy, Debug, PartialEq, Eq, Structural)]
pub enum CharClass {
    /// The blanks inside a line: space, tab, carriage return, vertical tab
    /// and form feed.
    Blank,
    /// Every character but the two quotes.
    Unquoted,
    /// The slash.
    Slash,
}

/// `c` belongs to `class`.
pub open spec fn in_class(class: CharClass, c: char) -> bool {
    match class {
        CharClass::Blank => c == ' ' || c == '\t' || c == '\r' || c == '\x0b' || c == '\x0c',
        CharClass::Unquoted => c != '"' && c != '\'',
        CharClass::Slash => c == '/',
    }
}

/// The end of the run of `class` that begins at `i`: the first position at or
/// after `i` that holds no character of `class`, or the end of `s`.
pub open spec fn run_end(s: Seq<char>, i: int, class: CharClass) -> int
    decreases s.len() - i,
{
    if 0 <= i < s.len() && in_class(class, s[i]) {
        run_end(s, i + 1, class)
    } else {
        i
    }
}

/// `run_end` lies within bounds, with characters of `class` alone before it
/// and none of `class` at it.
pub proof fn lemma_run_end(s: Seq<char>, i: int, class: CharClass)
    requires
        0 <= i <= s.len(),
    ensures
        i <= run_end(s, i, class) <= s.len(),
        run_end(s, i, class) < s.len() ==> !in_class(class, s[run_end(s, i, class)]),
        forall|j: int| i <= j < run_end(s, i, class) ==> in_class(class, s[j]),
    decreases s.len() - i,
{
    if i < s.len() && in_class(class, s[i]) {
        lemma_run_end(s, i + 1, class);
    }
}

/// A position reached from `i` over characters of `class` alone, which is
/// the end of `s` or holds none of `class`, is `run_end(s, i, class)`.
pub proof fn lemma_run_end_is(s: Seq<char>, i: int, r: int, class: CharClass)
    requires
        0 <= i <= r <= s.len(),
        r < s.len() ==> !in_class(class, s[r]),
        forall|j: int| i <= j < r ==> in_class(class, s[j]),
    ensures
        run_end(s, i, class) == r,
    decreases r - i,
{
    if i < r {
        lemma_run_end_is(s, i + 1, r, class);
    }
}

/// Whether `c` belongs to `class`.
pub fn is_in_class(class: CharClass, c: char) -> (b: bool)
    ensures
        b == in_class(class, c),
{
    match class {
        CharClass::Blank => c == ' ' || c == '\t' || c == '\r' || c == '\x0b' || c == '\x0c',
        CharClass::Unquoted => c != '"' && c != '\'',
        CharClass::Slash => c == '/',
    }
}

/// The end of the run of `class` that begins at `from` in `v`.
pub fn skip_run(v: &Vec<char>, from: usize, class: CharClass) -> (i: usize)
    requires
        from <= v.len(),
    ensures
        i == run_end(v@, from as int, class),
        from <= i <= v.len(),
{
    let mut i: usize = from;
    while i < v.len() && is_in_class(class, v[i])
        invariant
            from <= i <= v.len(),
            run_end(v@, i as int, class) == run_end(v@, from as int, class),
        decreases v.len() - i,
    {
        i += 1;
    }
    i
}

/// Appends one character to a string.
///
/// Calls `String::push`, which vstd leaves unspecified; the contract restates
/// its documentation: the character is added at the end and nothing else changes.
#[verifier::external_body]
pub(crate) fn push_char(s: &mut String, c: char)
    ensures
        final(s)@ == old(s)@.push(c),
{
    s.push(c)
}

/// The characters of `s`, in order.
pub fn chars_of(s: &str) -> (v: Vec<char>)
    ensures
        v@ == s@,
{
    let mut v: Vec<char> = Vec::new();
    for c in it: s.chars()
        invariant
            v@ == it.seq().take(it.index()),
            it.seq() == s@,
    {
        v.push(c);
    }
    v
}

/// The string made of the characters `v[from..to]`.
pub fn substring(v: &Vec<char>, from: usize, to: usize) -> (s: String)
    requires
        from <= to <= v.len(),
    ensures
        s@ == v@.subrange(from as int, to as int),
{
    let mut s = String::new();
    let mut i: usize = from;
    while i < to
        invariant
            from <= i <= to <= v.len(),
            s@ == v@.subrange(from as int, i as int),
        decreases to - i,
    {
        push_char(&mut s, v[i]);
        i += 1;
    }
    s
}

/// The string made of the characters of `v`, in order.
pub fn string_of(v: &Vec<char>) -> (s: String)
    ensures
        s@ == v@,
{
    let s = substring(v, 0, v.len());
    assert(v@.subrange(0, v.len() as int) == v@);
    s
}

/// Whether `p` occurs in `v` at position `at`.
pub fn matches_at(v: &Vec<char>, at: usize, p: &Vec<char>) -> (b: bool)
    ensures
        b == occurs_at(v@, at as int, p@),
{
    if at > v.len() || p.len() > v.len() - at {
        return false;
    }
    let mut i: usize = 0;
    while i < p.len()
        invariant
            i <= p.len(),
            at + p.len() <= v.len(),
            forall|j: int| 0 <= j < i ==> v@[at + j] == p@[j],
        decreases p.len() - i,
    {
        if v[at + i] != p[i] {
            assert(v@.subrange(at as int, at + p.len())[i as int] != p@[i as int]);
            return false;
        }
        i += 1;
    }
    assert(v@.subrange(at as int, at + p.len()) == p@);
    true
}

/// Whether `s` ends with `p`.
pub fn str_ends_with(s: &str, p: &str) -> (b: bool)
    ensures
        b == ends_with(s@, p@),
{
    let v = chars_of(s);
    let w = chars_of(p);
    if w.len() > v.len() {
        return false;
    }
    matches_at(&v, v.len() - w.len(), &w)
}

/// Whether `a` and `b` hold the same characters.
pub fn str_eq(a: &str, b: &str) -> (same: bool)
    ensures
        same == (a@ == b@),
{
    let v = chars_of(a);
    let w = chars_of(b);
    if v.len() != w.len() {
        return false;
    }
    let same = matches_at(&v, 0, &w);
    assert(v@.subrange(0, v.len() as int) == v@);
    same
}

/// The position of the first `c` in `v`, or `v.len()` when `v` holds none.
pub fn find_char(v: &Vec<char>, c: char) -> (i: usize)
    ensures
        i == index_of(v@, c),
        i <= v.len(),
        i < v.len() ==> v@[i as int] == c,
{
    let mut i: usize = 0;
    while i < v.len() && v[i] != c
        invariant
            i <= v.len(),
            forall|j: int| 0 <= j < i ==> v@[j] != c,
        decreases v.len() - i,
    {
        i += 1;
    }
    proof {
        lemma_index_of_is(v@, c, i as int);
    }
    i
}

/// `a` followed by `b`.
pub fn followed_by(a: &str, b: &str) -> (s: String)
    ensures
        s@ == a@ + b@,
{
    let mut s = a.to_owned();
    s.append(b);
    s
}

} // verus!
