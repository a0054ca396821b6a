//! Import specifiers: how one is classified and how a bare one names a package.

use vstd::prelude::*;
use crate::text::{chars_of, find_char, index_of, substring};

verus! {

/// What an import specifier refers to.
#[derive(Clone, Copy, Debug, PartialEq, Eq, Structural)]
pub enum SpecifierKind {
    /// Starts with `.`: a path relative to the importing file.
    Relative,
    /// Starts with `/`: a path from the server root.
    Absolute,
    /// Starts with a scheme and `:`, as `https://host/mod.js` does.
    Url,
    /// Anything else: a reference to an installed package.
    Bare,
}

/// `c` may open a URL scheme.
pub open spec fn is_scheme_start(c: char) -> bool {
    ('a' <= c && c <= 'z') || ('A' <= c && c <= 'Z')
}

/// `c` may stand inside a URL scheme.
pub open spec fn is_scheme_char(c: char) -> bool {
    is_scheme_start(c) || ('0' <= c && c <= '9') || c == '+' || c == '-' || c == '.'
}

/// `s` begins with a scheme: a letter, then letters, digits, `+`, `-` or `.`,
/// up to a `:`.
pub open spec fn has_scheme(s: Seq<char>) -> bool {
    let colon = index_of(s, ':');
    &&& 0 < colon < s.len()
    &&& is_scheme_start(s[0])
    &&& forall|j: int| 0 < j < colon ==> is_scheme_char(#[trigger] s[j])
}

/// The kind of the specifier `s`.
pub open spec fn kind_of(s: Seq<char>) -> SpecifierKind {
    if s.len() > 0 && s[0] == '.' {
        SpecifierKind::Relative
    } else if s.len() > 0 && s[0] == '/' {
        SpecifierKind::Absolute
    } else if has_scheme(s) {
        SpecifierKind::Url
    } else {
        SpecifierKind::Bare
    }
}

/// The package that the specifier `s` names: the text before its first `/`.
pub open spec fn package_of(s: Seq<char>) -> Seq<char> {
    s.subrange(0, index_of(s, '/'))
}

/// The path inside the package that `s` asks for: the text after its first
/// `/`, if it has one.
pub open spec fn sub_path_of(s: Seq<char>) -> Option<Seq<char>> {
    let slash = index_of(s, '/');
    if slash < s.len() {
        Some(s.subrange(slash + 1, s.len() as int))
    } else {
        None
    }
}

fn scheme_start(c: char) -> (b: bool)
    ensures
        b == is_scheme_start(c),
{
    ('a' <= c && c <= 'z') || ('A' <= c && c <= 'Z')
}

fn scheme_char(c: char) -> (b: bool)
    ensures
        b == is_scheme_char(c),
{
    scheme_start(c) || ('0' <= c && c <= '9') || c == '+' || c == '-' || c == '.'
}

/// Classifies the characters of a specifier.
pub fn classify_chars(v: &Vec<char>) -> (kind: SpecifierKind)
    ensures
        kind == kind_of(v@),
{
    if v.len() > 0 && v[0] == '.' {
        return SpecifierKind::Relative;
    }
    if v.len() > 0 && v[0] == '/' {
        return SpecifierKind::Absolute;
    }
    let colon = find_char(v, ':');
    if colon == 0 || colon >= v.len() || !scheme_start(v[0]) {
        return SpecifierKind::Bare;
    }
    let mut j: usize = 1;
    while j < colon
        invariant
            1 <= j <= colon < v.len(),
            colon == index_of(v@, ':'),
            v@[0] != '.' && v@[0] != '/',
            forall|k: int| 0 < k < j ==> is_scheme_char(#[trigger] v@[k]),
        decreases colon - j,
    {
        if !scheme_char(v[j]) {
            assert(!is_scheme_char(v@[j as int]));
            return SpecifierKind::Bare;
        }
        j += 1;
    }
    SpecifierKind::Url
}

/// Classifies a specifier as relative, absolute, URL or bare.
pub fn classify(specifier: &str) -> (kind: SpecifierKind)
    ensures
        kind == kind_of(specifier@),
{
    let v = chars_of(specifier);
    classify_chars(&v)
}

/// Splits a specifier on its first `/` into the package name and the path
/// inside the package.
pub fn split_specifier(specifier: &str) -> (parts: (String, Option<String>))
    ensures
        parts.0@ == package_of(specifier@),
        match parts.1 {
            Some(sub) => sub_path_of(specifier@) == Some(sub@),
            None => sub_path_of(specifier@) is None,
        },
{
    let v = chars_of(specifier);
    let slash = find_char(&v, '/');
    let package = substring(&v, 0, slash);
    if slash < v.len() {
        let sub = substring(&v, slash + 1, v.len());
        (package, Some(sub))
    } else {
        (package, None)
    }
}

} // verus!
