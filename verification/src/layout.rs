//! Package-manager layouts and how a project root selects one.

use vstd::prelude::*;
use crate::paths::{store_package, store_package_dir};
use crate::resolver::is_store_entry_of;
use crate::text::{chars_of, index_of, lemma_index_of, substring};

verus! {

/// The directory convention under which a project's dependencies are installed.
#[derive(Clone, Copy, Debug, PartialEq, Eq, Structural)]
pub enum PackageLayout {
    /// A content-addressed store below `node_modules/.pnpm`.
    PnpmLayout,
    /// One directory per package directly below `node_modules`.
    NpmLayout,
    /// No supported lockfile was found.
    Unknown,
}

/// The layout that lockfile presence selects: a pnpm lockfile wins over an npm
/// lockfile, and a root with neither has no known layout.
pub open spec fn layout_of(has_pnpm_lock: bool, has_npm_lock: bool) -> PackageLayout {
    if has_pnpm_lock {
        PackageLayout::PnpmLayout
    } else if has_npm_lock {
        PackageLayout::NpmLayout
    } else {
        PackageLayout::Unknown
    }
}

/// Selects the layout of a project root from the presence of its lockfiles.
pub fn detect_layout(has_pnpm_lock: bool, has_npm_lock: bool) -> (layout: PackageLayout)
    ensures
        layout == layout_of(has_pnpm_lock, has_npm_lock),
{
    if has_pnpm_lock {
        PackageLayout::PnpmLayout
    } else if has_npm_lock {
        PackageLayout::NpmLayout
    } else {
        PackageLayout::Unknown
    }
}

/// The layout of one project root, kept once it is known: a layout does not
/// change without a fresh install, but a root without lockfile may get one.
#[derive(Debug)]
pub struct LayoutCache {
    known: Option<PackageLayout>,
}

impl LayoutCache {
    /// `Unknown` is never kept.
    #[verifier::type_invariant]
    spec fn keeps_no_unknown(self) -> bool {
        self.known != Some(PackageLayout::Unknown)
    }

    /// The layout that is kept.
    pub closed spec fn known(&self) -> Option<PackageLayout> {
        self.known
    }

    /// A cache that knows no layout yet.
    pub fn new() -> (cache: LayoutCache)
        ensures
            cache.known() is None,
    {
        LayoutCache { known: None }
    }

    /// The layout that is kept, if one is: the lockfiles need not be looked
    /// for again.
    pub fn get(&self) -> (layout: Option<PackageLayout>)
        ensures
            layout == self.known(),
            layout != Some(PackageLayout::Unknown),
    {
        proof {
            use_type_invariant(self);
        }
        self.known
    }

    /// Selects the layout from the presence of the lockfiles and keeps it,
    /// unless it is `Unknown`: a root without lockfile is looked at again
    /// next time.
    pub fn detect(&mut self, has_pnpm_lock: bool, has_npm_lock: bool) -> (layout: PackageLayout)
        ensures
            layout == layout_of(has_pnpm_lock, has_npm_lock),
            final(self).known() == if layout == PackageLayout::Unknown {
                old(self).known()
            } else {
                Some(layout)
            },
    {
        let layout = detect_layout(has_pnpm_lock, has_npm_lock);
        match layout {
            PackageLayout::Unknown => {},
            _ => {
                self.known = Some(layout);
            },
        }
        layout
    }
}

/// A pnpm lockfile, as far as this library reads it.
#[derive(Clone, Debug, PartialEq, Eq)]
pub struct PnpmLock {
    /// The keys of the lockfile's `packages` mapping, each a package name, an
    /// `@`, and a version.
    pub packages: Vec<String>,
}

/// A package that a lockfile says is installed.
#[derive(Clone, Debug, PartialEq, Eq)]
pub struct InstalledPackage {
    /// The lockfile key, `name@version`.
    pub key: String,
    /// The package's name.
    pub name: String,
    /// The installed version; empty where the key gives none.
    pub version: String,
    /// The directory in the pnpm store that holds the package.
    pub path: String,
}

/// An `InstalledPackage` as a mathematical value.
pub struct InstalledPackageView {
    pub key: Seq<char>,
    pub name: Seq<char>,
    pub version: Seq<char>,
    pub path: Seq<char>,
}

impl View for InstalledPackage {
    type V = InstalledPackageView;

    open spec fn view(&self) -> InstalledPackageView {
        InstalledPackageView {
            key: self.key@,
            name: self.name@,
            version: self.version@,
            path: self.path@,
        }
    }
}

/// Where the name ends in the lockfile key `key`: at the first `@` behind
/// the first character, so that the `@` of a scope belongs to the name; at
/// the end where there is no such `@`.
pub open spec fn name_end(key: Seq<char>) -> int {
    if key.len() == 0 {
        0
    } else {
        1 + index_of(key.subrange(1, key.len() as int), '@')
    }
}

/// The package that the lockfile key `key` names.
pub open spec fn key_name(key: Seq<char>) -> Seq<char> {
    key.subrange(0, name_end(key))
}

/// The version that the lockfile key `key` gives: what stands behind the
/// `@` that ends the name.
pub open spec fn key_version(key: Seq<char>) -> Seq<char> {
    if name_end(key) < key.len() {
        key.subrange(name_end(key) + 1, key.len() as int)
    } else {
        Seq::empty()
    }
}

/// What the lockfile key `key` says is installed below `root`.
pub open spec fn installed(root: Seq<char>, key: Seq<char>) -> InstalledPackageView {
    InstalledPackageView {
        key,
        name: key_name(key),
        version: key_version(key),
        path: store_package_dir(root, key, key_name(key)),
    }
}

/// Reads one lockfile key: the package it names and the store directory
/// that holds the package below `root`.
pub fn installed_package(root: &str, key: &str) -> (package: InstalledPackage)
    ensures
        package@ == installed(root@, key@),
{
    let v = chars_of(key);
    let mut end: usize = 0;
    if v.len() > 0 {
        end = 1;
        while end < v.len() && v[end] != '@'
            invariant
                1 <= end <= v.len(),
                forall|j: int| 1 <= j < end ==> v@[j] != '@',
            decreases v.len() - end,
        {
            end += 1;
        }
        proof {
            let rest = v@.subrange(1, v.len() as int);
            crate::text::lemma_index_of_is(rest, '@', end - 1);
        }
    }
    let name = substring(&v, 0, end);
    let version = if end < v.len() {
        substring(&v, end + 1, v.len())
    } else {
        String::new()
    };
    let path = store_package(root, key, name.as_str());
    InstalledPackage { key: key.to_owned(), name, version, path }
}

/// Enumerates the packages that a pnpm lockfile says are installed below
/// `root`, one for each key and in the order of the keys.
pub fn installed_packages(root: &str, lock: &PnpmLock) -> (packages: Vec<InstalledPackage>)
    ensures
        packages.len() == lock.packages.len(),
        forall|i: int|
            0 <= i < packages.len() ==> (#[trigger] packages[i])@ == installed(
                root@,
                lock.packages[i]@,
            ),
{
    let mut packages: Vec<InstalledPackage> = Vec::new();
    let mut i: usize = 0;
    while i < lock.packages.len()
        invariant
            i <= lock.packages.len(),
            packages.len() == i,
            forall|j: int|
                0 <= j < i ==> (#[trigger] packages[j])@ == installed(root@, lock.packages[j]@),
        decreases lock.packages.len() - i,
    {
        packages.push(installed_package(root, lock.packages[i].as_str()));
        i += 1;
    }
    packages
}

/// A lockfile key with a version is the name, an `@` and the version. To the
/// resolver's scan of the store it is an entry of the package it names, and
/// the directory that the lockfile gives for the package is the one that the
/// resolver looks into.
pub proof fn lemma_lock_key_is_store_entry(root: Seq<char>, key: Seq<char>)
    requires
        name_end(key) < key.len(),
    ensures
        key == key_name(key) + seq!['@'] + key_version(key),
        is_store_entry_of(key, key_name(key)),
        installed(root, key).path == store_package_dir(root, key, installed(root, key).name),
{
    let rest = key.subrange(1, key.len() as int);
    lemma_index_of(rest, '@');
    let end = name_end(key);
    assert(key[end] == rest[end - 1]);
    assert(key.subrange(0, end + 1) =~= key_name(key) + seq!['@']);
    assert(key =~= key_name(key) + seq!['@'] + key_version(key));
}

} // verus!

