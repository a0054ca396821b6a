//! The import rewriter: tags the bare specifiers of a module's top-level
//! `import ... from "..."` statements with the prefix under which the server
//! answers for installed packages.
//!
//! The pass works line by line. A line is an import statement where it begins
//! with `import` and a blank, and holds, at the earliest place after that, the
//! word `from`, one or more blanks, a quote, a specifier without quotes, and a
//! quote. Only the specifier of a statement is touched, and only a bare one.

use vstd::prelude::*;
use crate::specifier::{classify_chars, kind_of, SpecifierKind};
use crate::text::{
    chars_of, in_class, index_of, is_in_class, lemma_index_of, lemma_run_end, lemma_run_end_is,
    matches_at, occurs_at, run_end, skip_run, string_of, CharClass,
};

verus! {

/// The prefix under which the server answers requests for installed packages.
pub const MODULE_PREFIX: &'static str = "/@modules/";

/// Where the word `from` can first stand in an import statement: behind
/// `import` and one blank.
pub const FIRST_FROM: usize = 7;

/// `c` is a blank inside a line.
pub open spec fn is_blank(c: char) -> bool {
    in_class(CharClass::Blank, c)
}

/// `c` opens or closes a specifier.
pub open spec fn is_quote(c: char) -> bool {
    !in_class(CharClass::Unquoted, c)
}

/// The first position at or after `i` that holds no blank, or the end of `l`.
pub open spec fn blanks_end(l: Seq<char>, i: int) -> int {
    run_end(l, i, CharClass::Blank)
}

/// The first position at or after `i` that holds a quote, or the end of `l`.
pub open spec fn next_quote(l: Seq<char>, i: int) -> int {
    run_end(l, i, CharClass::Unquoted)
}

/// The line `l` begins like an import statement.
pub open spec fn is_import_line(l: Seq<char>) -> bool {
    occurs_at(l, 0, "import"@) && l.len() > 6 && is_blank(l[6])
}

/// The rest of an import statement stands at `f`: the word `from`, blanks,
/// and a quoted specifier that is not empty.
pub open spec fn from_clause_at(l: Seq<char>, f: int) -> bool {
    let open = blanks_end(l, f + 4);
    let close = next_quote(l, open + 1);
    &&& occurs_at(l, f, "from"@)
    &&& f + 4 < open < l.len()
    &&& is_quote(l[open])
    &&& open + 1 < close < l.len()
}

/// Where the specifier of the clause at `f` begins and ends.
pub open spec fn specifier_span(l: Seq<char>, f: int) -> (int, int) {
    let open = blanks_end(l, f + 4);
    (open + 1, next_quote(l, open + 1))
}

/// The first position at or after `f` at which a `from` clause stands.
pub open spec fn first_clause(l: Seq<char>, f: int) -> Option<int>
    decreases l.len() - f,
{
    if f < 0 || f + 4 > l.len() {
        None
    } else if from_clause_at(l, f) {
        Some(f)
    } else {
        first_clause(l, f + 1)
    }
}

/// Where the specifier of the import statement on line `l` begins and ends,
/// if the line is one.
pub open spec fn import_specifier(l: Seq<char>) -> Option<(int, int)> {
    if !is_import_line(l) {
        None
    } else {
        match first_clause(l, FIRST_FROM as int) {
            Some(f) => Some(specifier_span(l, f)),
            None => None,
        }
    }
}

/// The line `l` with the specifier of its import statement tagged, where it
/// is a statement that imports a bare specifier; else `l` itself.
pub open spec fn rewrite_line(l: Seq<char>) -> Seq<char> {
    match import_specifier(l) {
        Some((start, end)) => if kind_of(l.subrange(start, end)) == SpecifierKind::Bare {
            l.subrange(0, start) + MODULE_PREFIX@ + l.subrange(start, l.len() as int)
        } else {
            l
        },
        None => l,
    }
}

/// The text `t` with every line rewritten.
pub open spec fn rewrite(t: Seq<char>) -> Seq<char>
    decreases t.len(),
{
    let n = index_of(t, '\n');
    if 0 <= n < t.len() {
        rewrite_line(t.subrange(0, n)) + seq!['\n'] + rewrite(t.subrange(n + 1, t.len() as int))
    } else {
        rewrite_line(t)
    }
}

/// The span of the specifier that the `from` clause at `f` quotes, if one
/// stands there.
fn clause_at(line: &Vec<char>, from_word: &Vec<char>, f: usize) -> (span: Option<(usize, usize)>)
    requires
        from_word@ == "from"@,
        f + 4 <= line.len(),
    ensures
        span is Some == from_clause_at(line@, f as int),
        span matches Some(s) ==> (s.0 as int, s.1 as int) == specifier_span(line@, f as int) && s.0
            < s.1 < line.len(),
{
    proof {
        reveal_strlit("from");
    }
    if !matches_at(line, f, from_word) {
        return None;
    }
    let open = skip_run(line, f + 4, CharClass::Blank);
    if open == f + 4 || open >= line.len() || is_in_class(CharClass::Unquoted, line[open]) {
        return None;
    }
    let close = skip_run(line, open + 1, CharClass::Unquoted);
    if close == open + 1 || close >= line.len() {
        return None;
    }
    Some((open + 1, close))
}

/// Finds the specifier of the import statement on `line`.
pub fn find_import_specifier(line: &Vec<char>) -> (span: Option<(usize, usize)>)
    ensures
        match span {
            Some(s) => import_specifier(line@) == Some((s.0 as int, s.1 as int)) && s.0 < s.1
                < line.len(),
            None => import_specifier(line@) is None,
        },
{
    let import_word = chars_of("import");
    let from_word = chars_of("from");
    proof {
        reveal_strlit("import");
        reveal_strlit("from");
    }
    if !matches_at(line, 0, &import_word) || line.len() <= 6 || !is_in_class(CharClass::Blank, line[6]) {
        return None;
    }
    let mut f: usize = FIRST_FROM;
    while line.len() - f >= 4
        invariant
            FIRST_FROM <= f <= line.len(),
            from_word@ == "from"@,
            first_clause(line@, f as int) == first_clause(line@, FIRST_FROM as int),
            is_import_line(line@),
        decreases line.len() - f,
    {
        match clause_at(line, &from_word, f) {
            Some(span) => {
                return Some(span);
            },
            None => {},
        }
        f += 1;
    }
    None
}

/// Appends the rewritten form of `line` to `out`.
fn emit_line(line: &Vec<char>, prefix: &Vec<char>, out: &mut Vec<char>)
    requires
        prefix@ == MODULE_PREFIX@,
    ensures
        final(out)@ == old(out)@ + rewrite_line(line@),
{
    let tag_at = match find_import_specifier(line) {
        Some((start, end)) => {
            let mut specifier: Vec<char> = Vec::new();
            let mut j: usize = start;
            while j < end
                invariant
                    start <= j <= end < line.len(),
                    specifier@ == line@.subrange(start as int, j as int),
                decreases end - j,
            {
                specifier.push(line[j]);
                j += 1;
            }
            match classify_chars(&specifier) {
                SpecifierKind::Bare => Some(start),
                _ => None,
            }
        },
        None => None,
    };
    let ghost before = out@;
    let mut i: usize = 0;
    while i < line.len()
        invariant
            i <= line.len(),
            prefix@ == MODULE_PREFIX@,
            tag_at matches Some(at) ==> at < line.len(),
            out@ == before + (match tag_at {
                Some(at) if at < i => line@.subrange(0, at as int) + MODULE_PREFIX@ + line@.subrange(
                    at as int,
                    i as int,
                ),
                _ => line@.subrange(0, i as int),
            }),
        decreases line.len() - i,
    {
        if tag_at == Some(i) {
            let mut k: usize = 0;
            while k < prefix.len()
                invariant
                    k <= prefix.len(),
                    i < line.len(),
                    out@ == before + line@.subrange(0, i as int) + prefix@.subrange(0, k as int),
                decreases prefix.len() - k,
            {
                out.push(prefix[k]);
                k += 1;
            }
            assert(prefix@.subrange(0, prefix.len() as int) == prefix@);
        }
        out.push(line[i]);
        i += 1;
    }
    assert(line@.subrange(0, line.len() as int) == line@);
}

/// Rewrites the imports of a module: the specifier of each top-level
/// `import ... from` statement that names a package gets the prefix
/// `/@modules/`; relative, absolute and URL specifiers, and all other text,
/// stay as they are.
pub fn process_imports(content: String) -> (rewritten: String)
    ensures
        rewritten@ == rewrite(content@),
{
    let text = chars_of(content.as_str());
    let prefix = chars_of(MODULE_PREFIX);
    let mut out: Vec<char> = Vec::new();
    let mut line: Vec<char> = Vec::new();
    let mut start: usize = 0;
    let mut i: usize = 0;
    assert(text@.subrange(0, text.len() as int) == text@);
    assert(out@ + rewrite(text@) == rewrite(text@));
    while i < text.len()
        invariant
            start <= i <= text.len(),
            prefix@ == MODULE_PREFIX@,
            line@ == text@.subrange(start as int, i as int),
            forall|j: int| start <= j < i ==> text@[j] != '\n',
            rewrite(text@) == out@ + rewrite(text@.subrange(start as int, text.len() as int)),
        decreases text.len() - i,
    {
        if text[i] == '\n' {
            proof {
                let rest = text@.subrange(start as int, text.len() as int);
                crate::text::lemma_index_of_is(rest, '\n', i - start);
                assert(rest.subrange(0, i - start) == line@);
                assert(rest.subrange(i - start + 1, rest.len() as int) == text@.subrange(
                    i + 1,
                    text.len() as int,
                ));
            }
            emit_line(&line, &prefix, &mut out);
            out.push('\n');
            line = Vec::new();
            start = i + 1;
        } else {
            line.push(text[i]);
        }
        i += 1;
    }
    proof {
        let rest = text@.subrange(start as int, text.len() as int);
        crate::text::lemma_index_of_is(rest, '\n', rest.len() as int);
        assert(rest == line@);
    }
    emit_line(&line, &prefix, &mut out);
    string_of(&out)
}

/// `first_clause` gives the earliest clause from `f0` on.
proof fn lemma_first_clause(l: Seq<char>, f0: int)
    requires
        0 <= f0,
    ensures
        match first_clause(l, f0) {
            Some(f) => f0 <= f && f + 4 <= l.len() && from_clause_at(l, f) && forall|g: int|
                f0 <= g < f ==> !from_clause_at(l, g),
            None => forall|g: int| f0 <= g ==> !from_clause_at(l, g),
        },
    decreases l.len() - f0,
{
    if f0 + 4 > l.len() {
        assert forall|g: int| f0 <= g implies !from_clause_at(l, g) by {
            if from_clause_at(l, g) {
                assert(occurs_at(l, g, "from"@));
                reveal_strlit("from");
            }
        }
    } else if !from_clause_at(l, f0) {
        lemma_first_clause(l, f0 + 1);
    }
}

/// A clause at `f` with none between `f0` and `f` is `first_clause(l, f0)`.
proof fn lemma_first_clause_is(l: Seq<char>, f0: int, f: int)
    requires
        0 <= f0 <= f,
        from_clause_at(l, f),
        forall|g: int| f0 <= g < f ==> !from_clause_at(l, g),
    ensures
        first_clause(l, f0) == Some(f),
    decreases f - f0,
{
    reveal_strlit("from");
    assert(occurs_at(l, f, "from"@));
    if f0 < f {
        lemma_first_clause_is(l, f0 + 1, f);
    }
}

/// A clause of `m` that ends before `n` is a clause of every line that agrees
/// with `m` on its first `n` characters.
proof fn lemma_clause_in_common_prefix(l: Seq<char>, m: Seq<char>, n: int, g: int)
    requires
        0 <= g,
        0 <= n <= l.len(),
        n <= m.len(),
        forall|j: int| 0 <= j < n ==> l[j] == m[j],
        from_clause_at(m, g),
        specifier_span(m, g).1 < n,
    ensures
        from_clause_at(l, g),
        specifier_span(l, g) == specifier_span(m, g),
{
    reveal_strlit("from");
    let open = blanks_end(m, g + 4);
    let close = next_quote(m, open + 1);
    lemma_run_end(m, g + 4, CharClass::Blank);
    lemma_run_end(m, open + 1, CharClass::Unquoted);
    lemma_run_end_is(l, g + 4, open, CharClass::Blank);
    lemma_run_end_is(l, open + 1, close, CharClass::Unquoted);
    assert(l.subrange(g, g + 4) =~= m.subrange(g, g + 4));
}

/// Rewriting a line a second time changes nothing: the tagged specifier
/// begins with `/` and no longer names a package.
pub proof fn lemma_rewrite_line_idempotent(l: Seq<char>)
    ensures
        rewrite_line(rewrite_line(l)) == rewrite_line(l),
{
    let m = rewrite_line(l);
    if m != l {
        reveal_strlit("/@modules/");
        reveal_strlit("import");
        reveal_strlit("from");
        let tag = MODULE_PREFIX@;
        let first = FIRST_FROM as int;
        let f = first_clause(l, first)->0;
        let (start, end) = specifier_span(l, f);
        lemma_first_clause(l, first);
        lemma_run_end(l, f + 4, CharClass::Blank);
        lemma_run_end(l, start, CharClass::Unquoted);
        assert(m == l.subrange(0, start) + tag + l.subrange(start, l.len() as int));
        assert(m.len() == l.len() + 10);
        assert(forall|j: int| 0 <= j < start ==> m[j] == l[j]);
        assert(forall|j: int| start <= j < start + 10 ==> m[j] == tag[j - start]);
        assert(forall|j: int| start + 10 <= j < m.len() ==> m[j] == l[j - 10]);
        // The line still begins like an import statement.
        assert(m.subrange(0, 6) =~= l.subrange(0, 6));
        assert(is_import_line(m));
        // The clause still stands at `f`, around the tagged specifier.
        assert(m.subrange(f, f + 4) =~= l.subrange(f, f + 4));
        lemma_run_end_is(m, f + 4, start - 1, CharClass::Blank);
        lemma_run_end_is(m, start, end + 10, CharClass::Unquoted);
        assert(from_clause_at(m, f));
        assert(specifier_span(m, f) == (start, end + 10));
        // No clause stands before it.
        assert forall|g: int| first <= g < f implies !from_clause_at(m, g) by {
            if from_clause_at(m, g) {
                assert(m.subrange(g, g + 4) == "from"@);
                assert(m.subrange(g, g + 4)[0] == 'f');
                assert(m.subrange(f, f + 4)[0] == 'f');
                if g + 4 > f {
                    assert(m.subrange(g, g + 4)[f - g] == m[f]);
                }
                let open = blanks_end(m, g + 4);
                lemma_run_end(m, g + 4, CharClass::Blank);
                assert(open <= f) by {
                    if open > f {
                        assert(is_blank(m[f]));
                    }
                }
                let close = next_quote(m, open + 1);
                lemma_run_end(m, open + 1, CharClass::Unquoted);
                assert(close <= start - 1) by {
                    if close > start - 1 {
                        assert(!is_quote(m[start - 1]));
                    }
                }
                lemma_clause_in_common_prefix(l, m, start, g);
            }
        }
        lemma_first_clause_is(m, first, f);
        assert(import_specifier(m) == Some((start, end + 10)));
        assert(m.subrange(start, end + 10)[0] == '/');
        assert(kind_of(m.subrange(start, end + 10)) == SpecifierKind::Absolute);
    }
}

/// A rewritten line holds a line break only where the line held one.
proof fn lemma_rewrite_line_keeps_line(l: Seq<char>)
    requires
        forall|j: int| 0 <= j < l.len() ==> l[j] != '\n',
    ensures
        forall|j: int| 0 <= j < rewrite_line(l).len() ==> rewrite_line(l)[j] != '\n',
{
    let m = rewrite_line(l);
    if m != l {
        reveal_strlit("/@modules/");
        let f = first_clause(l, FIRST_FROM as int)->0;
        let (start, end) = specifier_span(l, f);
        lemma_first_clause(l, FIRST_FROM as int);
        lemma_run_end(l, f + 4, CharClass::Blank);
        lemma_run_end(l, start, CharClass::Unquoted);
        assert forall|j: int| 0 <= j < m.len() implies m[j] != '\n' by {
            if j < start {
                assert(m[j] == l[j]);
            } else if j < start + 10 {
                assert(m[j] == MODULE_PREFIX@[j - start]);
            } else {
                assert(m[j] == l[j - 10]);
            }
        }
    }
}

/// The rewriting of a text whose first line is `line`.
proof fn lemma_rewrite_first_line(line: Seq<char>, rest: Seq<char>)
    requires
        forall|j: int| 0 <= j < line.len() ==> line[j] != '\n',
    ensures
        rewrite(line) == rewrite_line(line),
        rewrite(line + seq!['\n'] + rest) == rewrite_line(line) + seq!['\n'] + rewrite(rest),
{
    let t = line + seq!['\n'] + rest;
    crate::text::lemma_index_of_is(line, '\n', line.len() as int);
    crate::text::lemma_index_of_is(t, '\n', line.len() as int);
    assert(t.subrange(0, line.len() as int) =~= line);
    assert(t.subrange(line.len() as int + 1, t.len() as int) =~= rest);
}

/// Rewriting is idempotent: a text that has been rewritten is left as it is
/// by a second pass.
pub proof fn lemma_rewrite_idempotent(t: Seq<char>)
    ensures
        rewrite(rewrite(t)) == rewrite(t),
    decreases t.len(),
{
    lemma_index_of(t, '\n');
    let n = index_of(t, '\n');
    if n < t.len() {
        let line = t.subrange(0, n);
        let rest = t.subrange(n + 1, t.len() as int);
        lemma_rewrite_line_keeps_line(line);
        lemma_rewrite_line_idempotent(line);
        lemma_rewrite_idempotent(rest);
        lemma_rewrite_first_line(rewrite_line(line), rewrite(rest));
    } else {
        lemma_rewrite_line_keeps_line(t);
        lemma_rewrite_line_idempotent(t);
        lemma_rewrite_first_line(rewrite_line(t), Seq::empty());
    }
}

} // verus!
