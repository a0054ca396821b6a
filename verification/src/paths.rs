//! Where the package managers and this server keep things below a project
//! root. Paths are texts with `/` between their components.

use vstd::prelude::*;
use crate::text::{chars_of, followed_by, push_char, starts_with};

verus! {

/// The number of places probed for a path inside a package.
pub const ENTRY_CANDIDATES: usize = 5;

/// `rel` below `base`: the two joined by one `/`, which is left out where
/// `base` is empty or already ends with one.
pub open spec fn join(base: Seq<char>, rel: Seq<char>) -> Seq<char> {
    if base.len() == 0 || base.last() == '/' {
        base + rel
    } else {
        base + seq!['/'] + rel
    }
}

/// A joined path begins with its base.
pub proof fn lemma_join_begins_with_base(base: Seq<char>, rel: Seq<char>)
    ensures
        starts_with(join(base, rel), base),
{
    assert(join(base, rel).subrange(0, base.len() as int) =~= base);
}

/// The pnpm lockfile of a project.
pub open spec fn pnpm_lock_path(root: Seq<char>) -> Seq<char> {
    join(root, "pnpm-lock.yaml"@)
}

/// The npm lockfile of a project.
pub open spec fn npm_lock_path(root: Seq<char>) -> Seq<char> {
    join(root, "package-lock.json"@)
}

/// The pnpm store of a project.
pub open spec fn store_dir(root: Seq<char>) -> Seq<char> {
    join(root, "node_modules/.pnpm"@)
}

/// Where pnpm links `package` in its flattened directory.
pub open spec fn flat_package_dir(root: Seq<char>, package: Seq<char>) -> Seq<char> {
    join(join(root, "node_modules/.pnpm/node_modules"@), package)
}

/// Where the store entry `entry` (a `name@version` directory) holds `package`.
pub open spec fn store_package_dir(root: Seq<char>, entry: Seq<char>, package: Seq<char>) -> Seq<
    char,
> {
    join(join(join(store_dir(root), entry), "node_modules"@), package)
}

/// Where npm installs `package`.
pub open spec fn npm_package_dir(root: Seq<char>, package: Seq<char>) -> Seq<char> {
    join(join(root, "node_modules"@), package)
}

/// The manifest of the package installed in `dir`.
pub open spec fn manifest_path(dir: Seq<char>) -> Seq<char> {
    join(dir, "package.json"@)
}

/// What is appended to a path inside a package at probe `k`: nothing, then
/// `.js`, `.ts`, `/index.js` and `/index.ts`.
pub open spec fn entry_suffix(k: int) -> Seq<char> {
    if k == 0 {
        ""@
    } else if k == 1 {
        ".js"@
    } else if k == 2 {
        ".ts"@
    } else if k == 3 {
        "/index.js"@
    } else {
        "/index.ts"@
    }
}

/// The `k`-th place probed for the path `sub` inside the package in `dir`.
pub open spec fn entry_candidate(dir: Seq<char>, sub: Seq<char>, k: int) -> Seq<char> {
    join(dir, sub) + entry_suffix(k)
}

/// Joins `rel` to `base` with one `/` between them.
pub fn join_path(base: &str, rel: &str) -> (path: String)
    ensures
        path@ == join(base@, rel@),
{
    let b = chars_of(base);
    let mut path = base.to_owned();
    if b.len() != 0 && b[b.len() - 1] != '/' {
        push_char(&mut path, '/');
    }
    path.append(rel);
    path
}

/// The path of the pnpm lockfile below `root`.
pub fn pnpm_lock(root: &str) -> (path: String)
    ensures
        path@ == pnpm_lock_path(root@),
{
    join_path(root, "pnpm-lock.yaml")
}

/// The path of the npm lockfile below `root`.
pub fn npm_lock(root: &str) -> (path: String)
    ensures
        path@ == npm_lock_path(root@),
{
    join_path(root, "package-lock.json")
}

/// The path of the pnpm store below `root`.
pub fn store(root: &str) -> (path: String)
    ensures
        path@ == store_dir(root@),
{
    join_path(root, "node_modules/.pnpm")
}

/// The directory in which pnpm's flattened tree holds `package`.
pub fn flat_package(root: &str, package: &str) -> (path: String)
    ensures
        path@ == flat_package_dir(root@, package@),
{
    let flat = join_path(root, "node_modules/.pnpm/node_modules");
    join_path(flat.as_str(), package)
}

/// The directory in which the store entry `entry` holds `package`.
pub fn store_package(root: &str, entry: &str, package: &str) -> (path: String)
    ensures
        path@ == store_package_dir(root@, entry@, package@),
{
    let store = store(root);
    let entry_dir = join_path(store.as_str(), entry);
    let modules = join_path(entry_dir.as_str(), "node_modules");
    join_path(modules.as_str(), package)
}

/// The directory in which npm installs `package`.
pub fn npm_package(root: &str, package: &str) -> (path: String)
    ensures
        path@ == npm_package_dir(root@, package@),
{
    let modules = join_path(root, "node_modules");
    join_path(modules.as_str(), package)
}

/// The path of the manifest of the package installed in `dir`.
pub fn manifest(dir: &str) -> (path: String)
    ensures
        path@ == manifest_path(dir@),
{
    join_path(dir, "package.json")
}

/// The `k`-th place to probe for the path `sub` inside the package in `dir`.
pub fn candidate(dir: &str, sub: &str, k: usize) -> (path: String)
    ensures
        path@ == entry_candidate(dir@, sub@, k as int),
{
    let base = join_path(dir, sub);
    if k == 0 {
        followed_by(base.as_str(), "")
    } else if k == 1 {
        followed_by(base.as_str(), ".js")
    } else if k == 2 {
        followed_by(base.as_str(), ".ts")
    } else if k == 3 {
        followed_by(base.as_str(), "/index.js")
    } else {
        followed_by(base.as_str(), "/index.ts")
    }
}

} // verus!
