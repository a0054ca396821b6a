//! The module resolver: from a project root and an import specifier to the
//! file that answers it.
//!
//! Resolution looks at the file system, which this library does not touch.
//! It is therefore written as a machine: `Resolution::start` and
//! `Resolution::advance` say which question to put to the file system next,
//! and the host hands back the answer. `resolve_with` says, for any file
//! system, what a specifier resolves to, and
//! `lemma_resolver_computes_resolution` that the machine, run on the true
//! answers of that file system, ends with exactly that.

use vstd::prelude::*;
use crate::error::{outcome_view, Outcome, ResolutionError};
use crate::layout::{layout_of, PackageLayout};
use crate::manifest::{entry_of_document, json_document, manifest_entry};
use crate::paths::{
    candidate, entry_candidate, flat_package, flat_package_dir, join, join_path,
    lemma_join_begins_with_base, manifest,
    manifest_path, npm_lock_path, npm_package, npm_package_dir, pnpm_lock_path, store, store_dir,
    store_package, store_package_dir, ENTRY_CANDIDATES,
};
use crate::specifier::{classify, kind_of, package_of, split_specifier, sub_path_of, SpecifierKind};
use crate::text::{chars_of, lemma_starts_with_transitive, matches_at, starts_with};

verus! {

/// What a file system holds, as far as resolution can see it.
pub struct FsModel {
    /// The paths at which a file exists.
    pub files: Set<Seq<char>>,
    /// The paths at which a directory exists.
    pub dirs: Set<Seq<char>>,
    /// For each directory that can be listed, the names of its entries in
    /// the order in which a listing yields them.
    pub listings: Map<Seq<char>, Seq<Seq<char>>>,
    /// For each file that can be read as text, its content.
    pub texts: Map<Seq<char>, Seq<char>>,
}

/// A question that resolution puts to the file system.
#[derive(Clone, Debug, PartialEq, Eq)]
pub enum Probe {
    /// Is there a file at this path?
    IsFile(String),
    /// Is there a directory at this path?
    IsDir(String),
    /// Which entries does the directory at this path hold?
    ListDir(String),
    /// What is the text of the file at this path?
    ReadText(String),
}

/// A `Probe` as a mathematical value.
pub enum ProbeView {
    IsFile(Seq<char>),
    IsDir(Seq<char>),
    ListDir(Seq<char>),
    ReadText(Seq<char>),
}

impl View for Probe {
    type V = ProbeView;

    open spec fn view(&self) -> ProbeView {
        match self {
            Probe::IsFile(p) => ProbeView::IsFile(p@),
            Probe::IsDir(p) => ProbeView::IsDir(p@),
            Probe::ListDir(p) => ProbeView::ListDir(p@),
            Probe::ReadText(p) => ProbeView::ReadText(p@),
        }
    }
}

/// What the file system answers to a `Probe`.
#[derive(Debug, Clone, PartialEq, Eq)]
pub enum Answer {
    /// To `IsFile` and `IsDir`: whether it exists.
    Exists(bool),
    /// To `ListDir`: the entry names, or `None` where the directory cannot
    /// be listed.
    Entries(Option<Vec<String>>),
    /// To `ReadText`: the content, or `None` where the file cannot be read.
    Text(Option<String>),
}

/// An `Answer` as a mathematical value.
pub enum AnswerView {
    Exists(bool),
    Entries(Option<Seq<Seq<char>>>),
    Text(Option<Seq<char>>),
}

impl View for Answer {
    type V = AnswerView;

    open spec fn view(&self) -> AnswerView {
        match self {
            Answer::Exists(b) => AnswerView::Exists(*b),
            Answer::Entries(e) => AnswerView::Entries(e.deep_view()),
            Answer::Text(t) => AnswerView::Text(t.deep_view()),
        }
    }
}

impl FsModel {
    /// The file system that holds nothing.
    pub open spec fn empty() -> FsModel {
        FsModel {
            files: Set::empty(),
            dirs: Set::empty(),
            listings: Map::empty(),
            texts: Map::empty(),
        }
    }

    /// The layout that the lockfiles below `root` select.
    pub open spec fn layout(self, root: Seq<char>) -> PackageLayout {
        layout_of(
            self.files.contains(pnpm_lock_path(root)),
            self.files.contains(npm_lock_path(root)),
        )
    }

    /// The true answer to `probe`.
    pub open spec fn answer(self, probe: ProbeView) -> AnswerView {
        match probe {
            ProbeView::IsFile(p) => AnswerView::Exists(self.files.contains(p)),
            ProbeView::IsDir(p) => AnswerView::Exists(self.dirs.contains(p)),
            ProbeView::ListDir(p) => AnswerView::Entries(
                if self.listings.dom().contains(p) {
                    Some(self.listings[p])
                } else {
                    None
                },
            ),
            ProbeView::ReadText(p) => AnswerView::Text(
                if self.texts.dom().contains(p) {
                    Some(self.texts[p])
                } else {
                    None
                },
            ),
        }
    }
}

/// The path that the manifest text `text` of the package in `dir` names as
/// the package's entry: the entry it gives, taken below `dir`.
pub open spec fn manifest_outcome(dir: Seq<char>, text: Seq<char>) -> Outcome {
    match entry_of_document(json_document(text)) {
        Ok(entry) => Ok(join(dir, entry)),
        Err(e) => Err(e),
    }
}

/// `path` where a file exists at it; a path without a file is no entry.
pub open spec fn existing_file(fs: FsModel, path: Seq<char>) -> Outcome {
    if fs.files.contains(path) {
        Ok(path)
    } else {
        Err(ResolutionError::EntryNotFound)
    }
}

/// The entry of the package in `dir` by its manifest: the path that the
/// manifest names, where a file exists at it. A manifest that cannot be
/// read names none, and a named path without a file is no entry.
pub open spec fn manifest_entry_in(fs: FsModel, dir: Seq<char>) -> Outcome {
    if !fs.texts.dom().contains(manifest_path(dir)) {
        Err(ResolutionError::EntryNotFound)
    } else {
        match manifest_outcome(dir, fs.texts[manifest_path(dir)]) {
            Ok(path) => existing_file(fs, path),
            Err(e) => Err(e),
        }
    }
}

/// The first of the candidates `k`, `k + 1`, .. for `sub` in `dir` at which a
/// file exists; where none does, the manifest decides.
pub open spec fn probe_from(fs: FsModel, dir: Seq<char>, sub: Seq<char>, k: int) -> Outcome
    decreases ENTRY_CANDIDATES - k,
{
    if k < 0 || k >= ENTRY_CANDIDATES {
        manifest_entry_in(fs, dir)
    } else if fs.files.contains(entry_candidate(dir, sub, k)) {
        Ok(entry_candidate(dir, sub, k))
    } else {
        probe_from(fs, dir, sub, k + 1)
    }
}

/// The file that answers for the package installed in `dir`: with a path
/// inside the package, the first candidate that exists; else, or where none
/// exists, the entry that the manifest names, which must exist as a file
/// too.
pub open spec fn entry_in(fs: FsModel, dir: Seq<char>, sub: Option<Seq<char>>) -> Outcome {
    match sub {
        Some(s) => probe_from(fs, dir, s, 0),
        None => manifest_entry_in(fs, dir),
    }
}

/// `entry` is a store directory of `package`: its name is the package's name,
/// an `@`, and a version.
pub open spec fn is_store_entry_of(entry: Seq<char>, package: Seq<char>) -> bool {
    starts_with(entry, package + seq!['@'])
}

/// Resolution against the store entries `entries[i..]`: the first entry of
/// `package` that holds its directory decides; with none, the package is not
/// found.
pub open spec fn scan_from(
    fs: FsModel,
    root: Seq<char>,
    package: Seq<char>,
    sub: Option<Seq<char>>,
    entries: Seq<Seq<char>>,
    i: int,
) -> Outcome
    decreases entries.len() - i,
{
    if i < 0 || i >= entries.len() {
        Err(ResolutionError::PackageNotFound)
    } else if is_store_entry_of(entries[i], package) && fs.dirs.contains(
        store_package_dir(root, entries[i], package),
    ) {
        entry_in(fs, store_package_dir(root, entries[i], package), sub)
    } else {
        scan_from(fs, root, package, sub, entries, i + 1)
    }
}

/// Resolution in the pnpm store, for a package that the flattened directory
/// does not hold.
pub open spec fn store_lookup(
    fs: FsModel,
    root: Seq<char>,
    package: Seq<char>,
    sub: Option<Seq<char>>,
) -> Outcome {
    if fs.listings.dom().contains(store_dir(root)) {
        scan_from(fs, root, package, sub, fs.listings[store_dir(root)], 0)
    } else {
        Err(ResolutionError::PackageNotFound)
    }
}

/// Resolution of a package under a pnpm layout: the flattened directory
/// first, then the store.
pub open spec fn pnpm_lookup(
    fs: FsModel,
    root: Seq<char>,
    package: Seq<char>,
    sub: Option<Seq<char>>,
) -> Outcome {
    if fs.dirs.contains(flat_package_dir(root, package)) {
        entry_in(fs, flat_package_dir(root, package), sub)
    } else {
        store_lookup(fs, root, package, sub)
    }
}

/// Resolution of a package under an npm layout.
pub open spec fn npm_lookup(
    fs: FsModel,
    root: Seq<char>,
    package: Seq<char>,
    sub: Option<Seq<char>>,
) -> Outcome {
    if fs.dirs.contains(npm_package_dir(root, package)) {
        entry_in(fs, npm_package_dir(root, package), sub)
    } else {
        Err(ResolutionError::PackageNotFound)
    }
}

/// A specifier that resolution accepts: a bare one that names a package.
pub open spec fn names_package(specifier: Seq<char>) -> bool {
    kind_of(specifier) == SpecifierKind::Bare && package_of(specifier).len() > 0
}

/// What `specifier` resolves to below `root` in the file system `fs`, where
/// the project's layout is `layout`. The layout is looked at first: without
/// a lockfile every specifier fails with `NoLockfile`. Then a specifier that
/// names no package fails with `PackageNotFound`.
pub open spec fn resolve_with(
    fs: FsModel,
    layout: PackageLayout,
    root: Seq<char>,
    specifier: Seq<char>,
) -> Outcome {
    if layout == PackageLayout::Unknown {
        Err(ResolutionError::NoLockfile)
    } else if !names_package(specifier) {
        Err(ResolutionError::PackageNotFound)
    } else if layout == PackageLayout::NpmLayout {
        npm_lookup(fs, root, package_of(specifier), sub_path_of(specifier))
    } else {
        pnpm_lookup(fs, root, package_of(specifier), sub_path_of(specifier))
    }
}

/// What `specifier` resolves to below `root` in the file system `fs`.
pub open spec fn resolve_in(fs: FsModel, root: Seq<char>, specifier: Seq<char>) -> Outcome {
    resolve_with(fs, fs.layout(root), root, specifier)
}

/// With a path inside the package, the places are probed in their fixed
/// order and the first at which a file exists answers, whatever the manifest
/// says.
pub proof fn lemma_first_existing_candidate(fs: FsModel, dir: Seq<char>, sub: Seq<char>, k: int)
    requires
        0 <= k < ENTRY_CANDIDATES,
        fs.files.contains(entry_candidate(dir, sub, k)),
        forall|j: int| 0 <= j < k ==> !fs.files.contains(#[trigger] entry_candidate(dir, sub, j)),
    ensures
        entry_in(fs, dir, Some(sub)) == Ok::<Seq<char>, ResolutionError>(
            entry_candidate(dir, sub, k),
        ),
{
    reveal_with_fuel(probe_from, 6);
    assert(!fs.files.contains(entry_candidate(dir, sub, 0)) || k == 0);
    assert(!fs.files.contains(entry_candidate(dir, sub, 1)) || k <= 1);
    assert(!fs.files.contains(entry_candidate(dir, sub, 2)) || k <= 2);
    assert(!fs.files.contains(entry_candidate(dir, sub, 3)) || k <= 3);
}

/// Where no file exists at any of the places probed for a path inside the
/// package, the manifest decides as if no path had been given.
pub proof fn lemma_no_candidate_leaves_manifest(fs: FsModel, dir: Seq<char>, sub: Seq<char>)
    requires
        forall|j: int|
            0 <= j < ENTRY_CANDIDATES ==> !fs.files.contains(
                #[trigger] entry_candidate(dir, sub, j),
            ),
    ensures
        entry_in(fs, dir, Some(sub)) == entry_in(fs, dir, None),
{
    reveal_with_fuel(probe_from, 6);
    assert(!fs.files.contains(entry_candidate(dir, sub, 0)));
    assert(!fs.files.contains(entry_candidate(dir, sub, 1)));
    assert(!fs.files.contains(entry_candidate(dir, sub, 2)));
    assert(!fs.files.contains(entry_candidate(dir, sub, 3)));
    assert(!fs.files.contains(entry_candidate(dir, sub, 4)));
}

/// `dir` is the directory of `package` in a store entry of the package.
pub open spec fn is_store_dir_of(
    fs: FsModel,
    root: Seq<char>,
    package: Seq<char>,
    dir: Seq<char>,
) -> bool {
    &&& fs.listings.dom().contains(store_dir(root))
    &&& exists|i: int|
        0 <= i < fs.listings[store_dir(root)].len() && is_store_entry_of(
            #[trigger] fs.listings[store_dir(root)][i],
            package,
        ) && dir == store_package_dir(root, fs.listings[store_dir(root)][i], package)
}

/// `dir` is a directory in which `package` is installed below `root` under
/// the layout `layout`: npm's directory of the package, pnpm's flattened
/// directory, or the package's directory in one of its store entries.
pub open spec fn is_install_dir(
    fs: FsModel,
    layout: PackageLayout,
    root: Seq<char>,
    package: Seq<char>,
    dir: Seq<char>,
) -> bool {
    &&& fs.dirs.contains(dir)
    &&& match layout {
        PackageLayout::NpmLayout => dir == npm_package_dir(root, package),
        PackageLayout::PnpmLayout => dir == flat_package_dir(root, package) || is_store_dir_of(
            fs,
            root,
            package,
            dir,
        ),
        PackageLayout::Unknown => false,
    }
}

/// A file exists at `path`, which is one of the places probed for `sub` in
/// `dir`.
pub open spec fn is_found_candidate(
    fs: FsModel,
    dir: Seq<char>,
    sub: Seq<char>,
    path: Seq<char>,
) -> bool {
    &&& fs.files.contains(path)
    &&& exists|k: int| 0 <= k < ENTRY_CANDIDATES && path == #[trigger] entry_candidate(dir, sub, k)
}

/// `path` is what the package installed in `dir` gives for `sub`: one of the
/// places probed for `sub`, at which a file exists, or the entry that the
/// manifest names, at which a file exists as well.
pub open spec fn answers_from(
    fs: FsModel,
    dir: Seq<char>,
    sub: Option<Seq<char>>,
    path: Seq<char>,
) -> bool {
    ||| sub is Some && is_found_candidate(fs, dir, sub->0, path)
    ||| manifest_entry_in(fs, dir) == Ok::<Seq<char>, ResolutionError>(path)
}

/// What probing from candidate `k` on finds is a file at one of the places
/// probed, or the manifest's entry; either way it lies below `dir`.
proof fn lemma_probe_answers_from(fs: FsModel, dir: Seq<char>, sub: Seq<char>, k: int, path: Seq<char>)
    requires
        0 <= k <= ENTRY_CANDIDATES,
        probe_from(fs, dir, sub, k) == Ok::<Seq<char>, ResolutionError>(path),
    ensures
        answers_from(fs, dir, Some(sub), path),
        starts_with(path, dir),
    decreases ENTRY_CANDIDATES - k,
{
    if k >= ENTRY_CANDIDATES {
        lemma_manifest_entry_lies_below(fs, dir, path);
    } else if fs.files.contains(entry_candidate(dir, sub, k)) {
        assert(path == entry_candidate(dir, sub, k));
        assert(path.subrange(0, dir.len() as int) =~= dir);
    } else {
        lemma_probe_answers_from(fs, dir, sub, k + 1, path);
    }
}

/// The entry that a manifest names lies below the package's directory.
proof fn lemma_manifest_entry_lies_below(fs: FsModel, dir: Seq<char>, path: Seq<char>)
    requires
        manifest_entry_in(fs, dir) == Ok::<Seq<char>, ResolutionError>(path),
    ensures
        starts_with(path, dir),
{
    assert(path.subrange(0, dir.len() as int) =~= dir);
}

/// What the scan of the store from entry `i` on finds comes from the
/// package's directory in a store entry of the package.
proof fn lemma_scan_answers_from(
    fs: FsModel,
    root: Seq<char>,
    package: Seq<char>,
    sub: Option<Seq<char>>,
    entries: Seq<Seq<char>>,
    i: int,
    path: Seq<char>,
)
    requires
        0 <= i <= entries.len(),
        scan_from(fs, root, package, sub, entries, i) == Ok::<Seq<char>, ResolutionError>(path),
    ensures
        exists|j: int|
            i <= j < entries.len() && is_store_entry_of(#[trigger] entries[j], package)
                && fs.dirs.contains(store_package_dir(root, entries[j], package)) && answers_from(
                fs,
                store_package_dir(root, entries[j], package),
                sub,
                path,
            ) && starts_with(path, store_package_dir(root, entries[j], package)),
    decreases entries.len() - i,
{
    if i < entries.len() {
        let dir = store_package_dir(root, entries[i], package);
        if is_store_entry_of(entries[i], package) && fs.dirs.contains(dir) {
            lemma_entry_answers_from(fs, dir, sub, path);
        } else {
            lemma_scan_answers_from(fs, root, package, sub, entries, i + 1, path);
        }
    }
}

/// What the package installed in `dir` gives for `sub` is a file found by
/// probing or the manifest's entry, and lies below `dir`.
proof fn lemma_entry_answers_from(
    fs: FsModel,
    dir: Seq<char>,
    sub: Option<Seq<char>>,
    path: Seq<char>,
)
    requires
        entry_in(fs, dir, sub) == Ok::<Seq<char>, ResolutionError>(path),
    ensures
        answers_from(fs, dir, sub, path),
        starts_with(path, dir),
{
    match sub {
        Some(s) => lemma_probe_answers_from(fs, dir, s, 0, path),
        None => lemma_manifest_entry_lies_below(fs, dir, path),
    }
}

/// A resolved path lies below a directory in which the package is installed
/// under the project's layout, and is there either a file that was found by
/// probing for the path inside the package or the entry that the package's
/// manifest names.
pub proof fn lemma_resolved_path_comes_from_install_dir(
    fs: FsModel,
    layout: PackageLayout,
    root: Seq<char>,
    specifier: Seq<char>,
    path: Seq<char>,
)
    requires
        resolve_with(fs, layout, root, specifier) == Ok::<Seq<char>, ResolutionError>(path),
    ensures
        names_package(specifier),
        exists|dir: Seq<char>| #[trigger]
            is_install_dir(fs, layout, root, package_of(specifier), dir) && answers_from(
                fs,
                dir,
                sub_path_of(specifier),
                path,
            ) && starts_with(path, dir),
{
    let package = package_of(specifier);
    let sub = sub_path_of(specifier);
    match layout {
        PackageLayout::NpmLayout => {
            let dir = npm_package_dir(root, package);
            lemma_entry_answers_from(fs, dir, sub, path);
            assert(is_install_dir(fs, layout, root, package, dir));
        },
        PackageLayout::PnpmLayout => {
            let flat = flat_package_dir(root, package);
            if fs.dirs.contains(flat) {
                lemma_entry_answers_from(fs, flat, sub, path);
                assert(is_install_dir(fs, layout, root, package, flat));
            } else {
                let entries = fs.listings[store_dir(root)];
                lemma_scan_answers_from(fs, root, package, sub, entries, 0, path);
                let j = choose|j: int|
                    0 <= j < entries.len() && is_store_entry_of(#[trigger] entries[j], package)
                        && fs.dirs.contains(store_package_dir(root, entries[j], package))
                        && answers_from(fs, store_package_dir(root, entries[j], package), sub, path)
                        && starts_with(path, store_package_dir(root, entries[j], package));
                let dir = store_package_dir(root, entries[j], package);
                assert(is_install_dir(fs, layout, root, package, dir));
            }
        },
        PackageLayout::Unknown => {},
    }
}

/// A resolved path names a file that exists, below the project root: never
/// a directory and never a path at which nothing is.
pub proof fn lemma_resolved_path_is_a_file(
    fs: FsModel,
    layout: PackageLayout,
    root: Seq<char>,
    specifier: Seq<char>,
    path: Seq<char>,
)
    requires
        resolve_with(fs, layout, root, specifier) == Ok::<Seq<char>, ResolutionError>(path),
    ensures
        fs.files.contains(path),
        starts_with(path, root),
{
    let package = package_of(specifier);
    lemma_resolved_path_comes_from_install_dir(fs, layout, root, specifier, path);
    let dir = choose|dir: Seq<char>| #[trigger]
        is_install_dir(fs, layout, root, package, dir) && answers_from(
            fs,
            dir,
            sub_path_of(specifier),
            path,
        ) && starts_with(path, dir);
    assert(starts_with(dir, root)) by {
        if dir == npm_package_dir(root, package) {
            let modules = join(root, "node_modules"@);
            lemma_join_begins_with_base(root, "node_modules"@);
            lemma_join_begins_with_base(modules, package);
            lemma_starts_with_transitive(dir, modules, root);
        } else if dir == flat_package_dir(root, package) {
            let flat = join(root, "node_modules/.pnpm/node_modules"@);
            lemma_join_begins_with_base(root, "node_modules/.pnpm/node_modules"@);
            lemma_join_begins_with_base(flat, package);
            lemma_starts_with_transitive(dir, flat, root);
        } else {
            let entries = fs.listings[store_dir(root)];
            let i = choose|i: int|
                0 <= i < entries.len() && is_store_entry_of(#[trigger] entries[i], package) && dir
                    == store_package_dir(root, entries[i], package);
            let store = store_dir(root);
            let entry = join(store, entries[i]);
            let modules = join(entry, "node_modules"@);
            lemma_join_begins_with_base(root, "node_modules/.pnpm"@);
            lemma_join_begins_with_base(store, entries[i]);
            lemma_join_begins_with_base(entry, "node_modules"@);
            lemma_join_begins_with_base(modules, package);
            lemma_starts_with_transitive(entry, store, root);
            lemma_starts_with_transitive(modules, entry, root);
            lemma_starts_with_transitive(dir, modules, root);
        }
    }
    lemma_starts_with_transitive(path, dir, root);
}

/// Without a lockfile nothing resolves: every specifier, whether it names a
/// package or not, fails with `NoLockfile`.
pub proof fn lemma_no_lockfile_is_always_reported(
    fs: FsModel,
    root: Seq<char>,
    specifier: Seq<char>,
)
    requires
        !fs.files.contains(pnpm_lock_path(root)),
        !fs.files.contains(npm_lock_path(root)),
    ensures
        resolve_in(fs, root, specifier) == Err::<Seq<char>, ResolutionError>(
            ResolutionError::NoLockfile,
        ),
        ResolutionView::begin(root, specifier, PackageLayout::Unknown).step() == StepView::Done(
            Err(ResolutionError::NoLockfile),
        ),
{
}

/// Where a resolution stands: what it has asked and what it will do with the
/// answer.
pub enum StageView {
    /// Asked whether pnpm's flattened directory holds the package.
    FlatDir,
    /// Asked for the entries of the pnpm store.
    StoreList,
    /// Asked whether the store entry `entries[at]` holds the package.
    StoreScan { entries: Seq<Seq<char>>, at: int },
    /// Asked whether npm's directory of the package exists.
    NpmDir,
    /// Asked whether candidate `k` for the path inside the package in `dir`
    /// is a file.
    Candidate { dir: Seq<char>, k: int },
    /// Asked for the text of the manifest of the package in `dir`.
    Manifest { dir: Seq<char> },
    /// Asked whether the path that the manifest names is a file.
    Entry { path: Seq<char> },
    /// Nothing is left to ask.
    Finished { result: Outcome },
}

/// A resolution in progress, as a mathematical value.
pub struct ResolutionView {
    /// The project root.
    pub root: Seq<char>,
    /// The package that the specifier names.
    pub package: Seq<char>,
    /// The path inside the package that the specifier asks for.
    pub sub_path: Option<Seq<char>>,
    /// Where the resolution stands.
    pub stage: StageView,
}

/// What a resolution wants next, as a mathematical value.
pub enum StepView {
    Ask(ProbeView),
    Done(Outcome),
}

/// The first of the store entries `entries[from..]` whose name says that it
/// holds `package`, or `entries.len()` where there is none.
pub open spec fn next_store_entry(entries: Seq<Seq<char>>, package: Seq<char>, from: int) -> int
    decreases entries.len() - from,
{
    if from < 0 || from >= entries.len() {
        entries.len() as int
    } else if is_store_entry_of(entries[from], package) {
        from
    } else {
        next_store_entry(entries, package, from + 1)
    }
}

/// The stage that scans the store from `entries[from]` on: the next entry of
/// the package is asked about; without one the package is not found.
pub open spec fn scan_stage(entries: Seq<Seq<char>>, package: Seq<char>, from: int) -> StageView {
    let at = next_store_entry(entries, package, from);
    if at < entries.len() {
        StageView::StoreScan { entries, at }
    } else {
        StageView::Finished { result: Err(ResolutionError::PackageNotFound) }
    }
}

/// The stage that looks for the entry of the package installed in `dir`.
pub open spec fn enter_stage(dir: Seq<char>, sub_path: Option<Seq<char>>) -> StageView {
    match sub_path {
        Some(_) => StageView::Candidate { dir, k: 0 },
        None => StageView::Manifest { dir },
    }
}

/// The stage that follows the reading of the manifest text `text` of the
/// package in `dir`: the path that it names is asked about; a manifest that
/// names none ends the resolution.
pub open spec fn manifest_stage(dir: Seq<char>, text: Seq<char>) -> StageView {
    match manifest_outcome(dir, text) {
        Ok(path) => StageView::Entry { path },
        Err(e) => StageView::Finished { result: Err(e) },
    }
}

/// `new` comes before `old` in the order by which a resolution runs down:
/// first by stage, then by what is left to try within the stage.
pub open spec fn runs_down(new: (nat, nat), old: (nat, nat)) -> bool {
    new.0 < old.0 || (new.0 == old.0 && new.1 < old.1)
}

impl ResolutionView {
    /// A scan stands at a store entry of the package, and a candidate is
    /// probed only for a path inside the package.
    pub open spec fn wf(self) -> bool {
        match self.stage {
            StageView::StoreScan { entries, at } => 0 <= at < entries.len() && is_store_entry_of(
                entries[at],
                self.package,
            ),
            StageView::Candidate { dir, k } => 0 <= k < ENTRY_CANDIDATES && self.sub_path is Some,
            _ => true,
        }
    }

    /// The resolution of `specifier` below `root` at its beginning, in a
    /// project whose layout is `layout`.
    pub open spec fn begin(
        root: Seq<char>,
        specifier: Seq<char>,
        layout: PackageLayout,
    ) -> ResolutionView {
        ResolutionView {
            root,
            package: package_of(specifier),
            sub_path: sub_path_of(specifier),
            stage: if layout == PackageLayout::Unknown {
                StageView::Finished { result: Err(ResolutionError::NoLockfile) }
            } else if !names_package(specifier) {
                StageView::Finished { result: Err(ResolutionError::PackageNotFound) }
            } else if layout == PackageLayout::NpmLayout {
                StageView::NpmDir
            } else {
                StageView::FlatDir
            },
        }
    }

    /// The question whose answer the resolution waits for, or `None` where
    /// it has ended.
    pub open spec fn pending(self) -> Option<ProbeView> {
        match self.stage {
            StageView::FlatDir => Some(ProbeView::IsDir(flat_package_dir(self.root, self.package))),
            StageView::StoreList => Some(ProbeView::ListDir(store_dir(self.root))),
            StageView::StoreScan { entries, at } => Some(
                ProbeView::IsDir(store_package_dir(self.root, entries[at], self.package)),
            ),
            StageView::NpmDir => Some(ProbeView::IsDir(npm_package_dir(self.root, self.package))),
            StageView::Candidate { dir, k } => Some(
                ProbeView::IsFile(entry_candidate(dir, self.sub_path->0, k)),
            ),
            StageView::Manifest { dir } => Some(ProbeView::ReadText(manifest_path(dir))),
            StageView::Entry { path } => Some(ProbeView::IsFile(path)),
            StageView::Finished { result } => None,
        }
    }

    /// What the resolution wants next: its pending question, or its result
    /// where it has ended.
    pub open spec fn step(self) -> StepView {
        match self.stage {
            StageView::Finished { result } => StepView::Done(result),
            _ => StepView::Ask(self.pending()->0),
        }
    }

    /// The resolution after `answer` has been given to its pending question.
    /// An answer of the wrong kind counts as a no; a resolution that has
    /// ended stays as it is.
    pub open spec fn after(self, answer: AnswerView) -> ResolutionView {
        let yes = answer == AnswerView::Exists(true);
        let not_found = StageView::Finished { result: Err(ResolutionError::PackageNotFound) };
        ResolutionView {
            stage: match self.stage {
                StageView::FlatDir => if yes {
                    enter_stage(flat_package_dir(self.root, self.package), self.sub_path)
                } else {
                    StageView::StoreList
                },
                StageView::StoreList => match answer {
                    AnswerView::Entries(Some(entries)) => scan_stage(entries, self.package, 0),
                    _ => not_found,
                },
                StageView::StoreScan { entries, at } => if yes {
                    enter_stage(
                        store_package_dir(self.root, entries[at], self.package),
                        self.sub_path,
                    )
                } else {
                    scan_stage(entries, self.package, at + 1)
                },
                StageView::NpmDir => if yes {
                    enter_stage(npm_package_dir(self.root, self.package), self.sub_path)
                } else {
                    not_found
                },
                StageView::Candidate { dir, k } => if yes {
                    StageView::Finished { result: Ok(entry_candidate(dir, self.sub_path->0, k)) }
                } else if k + 1 < ENTRY_CANDIDATES {
                    StageView::Candidate { dir, k: k + 1 }
                } else {
                    StageView::Manifest { dir }
                },
                StageView::Manifest { dir } => match answer {
                    AnswerView::Text(Some(text)) => manifest_stage(dir, text),
                    _ => StageView::Finished { result: Err(ResolutionError::EntryNotFound) },
                },
                StageView::Entry { path } => if yes {
                    StageView::Finished { result: Ok(path) }
                } else {
                    StageView::Finished { result: Err(ResolutionError::EntryNotFound) }
                },
                StageView::Finished { result } => self.stage,
            },
            ..self
        }
    }

    /// The result that the resolution reaches where every answer from here
    /// on is the true answer of `fs`.
    pub open spec fn outcome(self, fs: FsModel) -> Outcome {
        match self.stage {
            StageView::FlatDir => pnpm_lookup(fs, self.root, self.package, self.sub_path),
            StageView::StoreList => store_lookup(fs, self.root, self.package, self.sub_path),
            StageView::StoreScan { entries, at } => scan_from(
                fs,
                self.root,
                self.package,
                self.sub_path,
                entries,
                at,
            ),
            StageView::NpmDir => npm_lookup(fs, self.root, self.package, self.sub_path),
            StageView::Candidate { dir, k } => probe_from(fs, dir, self.sub_path->0, k),
            StageView::Manifest { dir } => manifest_entry_in(fs, dir),
            StageView::Entry { path } => existing_file(fs, path),
            StageView::Finished { result } => result,
        }
    }

    /// How far the resolution is from its end: the stage, and what is left
    /// to try within it.
    pub open spec fn measure(self) -> (nat, nat) {
        match self.stage {
            StageView::FlatDir => (7, 0),
            StageView::StoreList => (6, 0),
            StageView::StoreScan { entries, at } => (5, (entries.len() - at) as nat),
            StageView::NpmDir => (4, 0),
            StageView::Candidate { dir, k } => (3, (ENTRY_CANDIDATES - k) as nat),
            StageView::Manifest { dir } => (2, 0),
            StageView::Entry { path } => (1, 0),
            StageView::Finished { result } => (0, 0),
        }
    }

    /// The result that the resolution reaches when it is run to its end on
    /// the true answers of `fs`.
    pub open spec fn run(self, fs: FsModel) -> Outcome
        decreases self.measure().0, self.measure().1,
        when self.wf()
        via Self::run_ends
    {
        match self.pending() {
            Some(probe) => self.after(fs.answer(probe)).run(fs),
            None => self.outcome(fs),
        }
    }

    #[via_fn]
    proof fn run_ends(self, fs: FsModel) {
        if self.pending() is Some {
            lemma_answer_brings_closer(self, fs.answer(self.pending()->0));
        }
    }
}

/// From `from` on, `next_store_entry` skips the entries of other packages
/// and stops at one of `package`, or at the end.
pub proof fn lemma_next_store_entry(entries: Seq<Seq<char>>, package: Seq<char>, from: int)
    requires
        0 <= from <= entries.len(),
    ensures
        from <= next_store_entry(entries, package, from) <= entries.len(),
        next_store_entry(entries, package, from) < entries.len() ==> is_store_entry_of(
            entries[next_store_entry(entries, package, from)],
            package,
        ),
        forall|j: int|
            from <= j < next_store_entry(entries, package, from) ==> !is_store_entry_of(
                #[trigger] entries[j],
                package,
            ),
    decreases entries.len() - from,
{
    if from < entries.len() && !is_store_entry_of(entries[from], package) {
        lemma_next_store_entry(entries, package, from + 1);
    }
}

/// Skipping the store entries of other packages changes nothing in what the
/// scan of the store finds.
pub proof fn lemma_scan_skips_other_entries(
    fs: FsModel,
    root: Seq<char>,
    package: Seq<char>,
    sub: Option<Seq<char>>,
    entries: Seq<Seq<char>>,
    from: int,
)
    requires
        0 <= from <= entries.len(),
    ensures
        scan_from(fs, root, package, sub, entries, from) == scan_from(
            fs,
            root,
            package,
            sub,
            entries,
            next_store_entry(entries, package, from),
        ),
    decreases entries.len() - from,
{
    if from < entries.len() && !is_store_entry_of(entries[from], package) {
        lemma_scan_skips_other_entries(fs, root, package, sub, entries, from + 1);
    }
}

/// Every answer brings a resolution that has not ended closer to its end,
/// and leaves it well-formed.
pub proof fn lemma_answer_brings_closer(state: ResolutionView, answer: AnswerView)
    requires
        state.wf(),
        state.pending() is Some,
    ensures
        state.after(answer).wf(),
        runs_down(state.after(answer).measure(), state.measure()),
{
    match state.stage {
        StageView::StoreList => {
            if let AnswerView::Entries(Some(entries)) = answer {
                lemma_next_store_entry(entries, state.package, 0);
            }
        },
        StageView::StoreScan { entries, at } => {
            lemma_next_store_entry(entries, state.package, at + 1);
        },
        _ => {},
    }
}

/// A true answer changes nothing in the result that a resolution reaches:
/// where `answer` is what the file system `fs` holds, the resolution after it
/// ends in `fs` as the resolution before it.
pub proof fn lemma_true_answer_keeps_outcome(state: ResolutionView, fs: FsModel)
    requires
        state.wf(),
        state.pending() is Some,
    ensures
        state.after(fs.answer(state.pending()->0)).outcome(fs) == state.outcome(fs),
{
    let sub = state.sub_path;
    match state.stage {
        StageView::StoreList => {
            if fs.listings.dom().contains(store_dir(state.root)) {
                let entries = fs.listings[store_dir(state.root)];
                lemma_next_store_entry(entries, state.package, 0);
                lemma_scan_skips_other_entries(fs, state.root, state.package, sub, entries, 0);
            }
        },
        StageView::StoreScan { entries, at } => {
            lemma_next_store_entry(entries, state.package, at + 1);
            lemma_scan_skips_other_entries(fs, state.root, state.package, sub, entries, at + 1);
        },
        StageView::Candidate { dir, k } => {
            if k + 1 >= ENTRY_CANDIDATES {
                assert(probe_from(fs, dir, sub->0, k + 1) == manifest_entry_in(fs, dir));
            }
        },
        _ => {},
    }
}

/// A resolution begins well-formed, and with the result that the file system
/// gives to its specifier.
pub proof fn lemma_begin_resolves(
    fs: FsModel,
    root: Seq<char>,
    specifier: Seq<char>,
    layout: PackageLayout,
)
    ensures
        ResolutionView::begin(root, specifier, layout).wf(),
        ResolutionView::begin(root, specifier, layout).outcome(fs) == resolve_with(
            fs,
            layout,
            root,
            specifier,
        ),
{
}

/// Run on the true answers of a file system, a resolution ends with the
/// result that it stood for all along.
pub proof fn lemma_run_reaches_outcome(state: ResolutionView, fs: FsModel)
    requires
        state.wf(),
    ensures
        state.run(fs) == state.outcome(fs),
    decreases state.measure().0, state.measure().1,
{
    if state.pending() is Some {
        let answer = fs.answer(state.pending()->0);
        lemma_answer_brings_closer(state, answer);
        lemma_true_answer_keeps_outcome(state, fs);
        lemma_run_reaches_outcome(state.after(answer), fs);
    }
}

/// Resolution is a function of what the file system holds: begun for any
/// specifier and run on the true answers of a file system, the resolver ends
/// with `resolve_with` of that file system, whatever it had to ask.
pub proof fn lemma_resolver_computes_resolution(
    fs: FsModel,
    root: Seq<char>,
    specifier: Seq<char>,
    layout: PackageLayout,
)
    ensures
        ResolutionView::begin(root, specifier, layout).run(fs) == resolve_with(
            fs,
            layout,
            root,
            specifier,
        ),
{
    lemma_begin_resolves(fs, root, specifier, layout);
    lemma_run_reaches_outcome(ResolutionView::begin(root, specifier, layout), fs);
}

/// Where a resolution stands, with the texts it holds.
#[derive(Debug)]
enum Stage {
    FlatDir,
    StoreList,
    StoreScan { entries: Vec<String>, at: usize },
    NpmDir,
    Candidate { dir: String, k: usize },
    Manifest { dir: String },
    Entry { path: String },
    Finished { result: Result<String, ResolutionError> },
}

impl View for Stage {
    type V = StageView;

    closed spec fn view(&self) -> StageView {
        match self {
            Stage::FlatDir => StageView::FlatDir,
            Stage::StoreList => StageView::StoreList,
            Stage::StoreScan { entries, at } => StageView::StoreScan {
                entries: entries.deep_view(),
                at: *at as int,
            },
            Stage::NpmDir => StageView::NpmDir,
            Stage::Candidate { dir, k } => StageView::Candidate { dir: dir@, k: *k as int },
            Stage::Manifest { dir } => StageView::Manifest { dir: dir@ },
            Stage::Entry { path } => StageView::Entry { path: path@ },
            Stage::Finished { result } => StageView::Finished { result: outcome_view(*result) },
        }
    }
}

/// One resolution in progress.
#[derive(Debug)]
pub struct Resolution {
    root: String,
    package: String,
    sub_path: Option<String>,
    stage: Stage,
}

impl View for Resolution {
    type V = ResolutionView;

    closed spec fn view(&self) -> ResolutionView {
        ResolutionView {
            root: self.root@,
            package: self.package@,
            sub_path: self.sub_path.deep_view(),
            stage: self.stage@,
        }
    }
}

/// What a resolution wants next from its host.
#[derive(Debug, PartialEq, Eq)]
pub enum Step {
    /// Put this question to the file system and hand the answer to `advance`.
    Ask(Probe),
    /// The resolution has ended with this result.
    Done(Result<String, ResolutionError>),
}

impl View for Step {
    type V = StepView;

    open spec fn view(&self) -> StepView {
        match self {
            Step::Ask(probe) => StepView::Ask(probe@),
            Step::Done(result) => StepView::Done(outcome_view(*result)),
        }
    }
}

impl Resolution {
    /// Every resolution is one that `start` and `advance` produce.
    #[verifier::type_invariant]
    spec fn well_formed(self) -> bool {
        self@.wf()
    }

    fn finished(
        root: String,
        package: String,
        sub_path: Option<String>,
        result: Result<String, ResolutionError>,
    ) -> (next: (Resolution, Step))
        ensures
            next.0@ == (ResolutionView {
                root: root@,
                package: package@,
                sub_path: sub_path.deep_view(),
                stage: StageView::Finished { result: outcome_view(result) },
            }),
            next.1@ == next.0@.step(),
    {
        let shown = match &result {
            Ok(path) => Ok(path.clone()),
            Err(e) => Err(*e),
        };
        let stage = Stage::Finished { result };
        (Resolution { root, package, sub_path, stage }, Step::Done(shown))
    }

    fn read_manifest(
        root: String,
        package: String,
        sub_path: Option<String>,
        dir: String,
    ) -> (next: (Resolution, Step))
        ensures
            next.0@ == (ResolutionView {
                root: root@,
                package: package@,
                sub_path: sub_path.deep_view(),
                stage: StageView::Manifest { dir: dir@ },
            }),
            next.1@ == next.0@.step(),
    {
        let probe = Probe::ReadText(manifest(dir.as_str()));
        (Resolution { root, package, sub_path, stage: Stage::Manifest { dir } }, Step::Ask(probe))
    }

    fn enter(
        root: String,
        package: String,
        sub_path: Option<String>,
        dir: String,
    ) -> (next: (Resolution, Step))
        ensures
            next.0@ == (ResolutionView {
                root: root@,
                package: package@,
                sub_path: sub_path.deep_view(),
                stage: enter_stage(dir@, sub_path.deep_view()),
            }),
            next.1@ == next.0@.step(),
    {
        match &sub_path {
            Some(sub) => {
                let probe = Probe::IsFile(candidate(dir.as_str(), sub.as_str(), 0));
                (
                    Resolution { root, package, sub_path, stage: Stage::Candidate { dir, k: 0 } },
                    Step::Ask(probe),
                )
            },
            None => Self::read_manifest(root, package, sub_path, dir),
        }
    }

    fn scan(
        root: String,
        package: String,
        sub_path: Option<String>,
        entries: Vec<String>,
        from: usize,
    ) -> (next: (Resolution, Step))
        requires
            from <= entries.len(),
        ensures
            next.0@ == (ResolutionView {
                root: root@,
                package: package@,
                sub_path: sub_path.deep_view(),
                stage: scan_stage(entries.deep_view(), package@, from as int),
            }),
            next.1@ == next.0@.step(),
    {
        let mut prefix = chars_of(package.as_str());
        prefix.push('@');
        let mut i: usize = from;
        while i < entries.len()
            invariant
                from <= i <= entries.len(),
                prefix@ == package@ + seq!['@'],
                next_store_entry(entries.deep_view(), package@, i as int) == next_store_entry(
                    entries.deep_view(),
                    package@,
                    from as int,
                ),
            decreases entries.len() - i,
        {
            let name = chars_of(entries[i].as_str());
            assert(entries.deep_view()[i as int] == name@);
            if matches_at(&name, 0, &prefix) {
                let probe = Probe::IsDir(
                    store_package(root.as_str(), entries[i].as_str(), package.as_str()),
                );
                let stage = Stage::StoreScan { entries, at: i };
                return (Resolution { root, package, sub_path, stage }, Step::Ask(probe));
            }
            i += 1;
        }
        Self::finished(root, package, sub_path, Err(ResolutionError::PackageNotFound))
    }

    /// Begins the resolution of `specifier` below `root`, in a project whose
    /// layout is `layout`, and says what it wants first. Without a lockfile
    /// the resolution ends at once with `NoLockfile`, whatever the specifier.
    pub fn start(root: &str, specifier: &str, layout: PackageLayout) -> (begun: (Resolution, Step))
        ensures
            begun.0@ == ResolutionView::begin(root@, specifier@, layout),
            begun.1@ == begun.0@.step(),
    {
        let kind = classify(specifier);
        let (package, sub_path) = split_specifier(specifier);
        let root = root.to_owned();
        let named = chars_of(package.as_str());
        let names_package = kind == SpecifierKind::Bare && named.len() != 0;
        match layout {
            PackageLayout::Unknown => Self::finished(
                root,
                package,
                sub_path,
                Err(ResolutionError::NoLockfile),
            ),
            _ if !names_package => Self::finished(
                root,
                package,
                sub_path,
                Err(ResolutionError::PackageNotFound),
            ),
            PackageLayout::NpmLayout => {
                let probe = Probe::IsDir(npm_package(root.as_str(), package.as_str()));
                (Resolution { root, package, sub_path, stage: Stage::NpmDir }, Step::Ask(probe))
            },
            PackageLayout::PnpmLayout => {
                let probe = Probe::IsDir(flat_package(root.as_str(), package.as_str()));
                (Resolution { root, package, sub_path, stage: Stage::FlatDir }, Step::Ask(probe))
            },
        }
    }

    /// Takes the answer to the pending question and says what comes next.
    pub fn advance(self, answer: Answer) -> (next: (Resolution, Step))
        ensures
            next.0@ == self@.after(answer@),
            next.1@ == next.0@.step(),
    {
        proof {
            use_type_invariant(&self);
        }
        let ghost before = self@;
        let Resolution { root, package, sub_path, stage } = self;
        assert(before.stage == stage@ && before.wf());
        let yes = match &answer {
            Answer::Exists(true) => true,
            _ => false,
        };
        match stage {
            Stage::FlatDir => {
                if yes {
                    let dir = flat_package(root.as_str(), package.as_str());
                    Self::enter(root, package, sub_path, dir)
                } else {
                    let probe = Probe::ListDir(store(root.as_str()));
                    let stage = Stage::StoreList;
                    (Resolution { root, package, sub_path, stage }, Step::Ask(probe))
                }
            },
            Stage::StoreList => match answer {
                Answer::Entries(Some(entries)) => Self::scan(root, package, sub_path, entries, 0),
                _ => Self::finished(root, package, sub_path, Err(ResolutionError::PackageNotFound)),
            },
            Stage::StoreScan { entries, at } => {
                assert(at < entries.deep_view().len());
                assert(entries.deep_view().len() == entries.len());
                assert(entries.deep_view()[at as int] == entries@[at as int]@);
                if yes {
                    let dir = store_package(root.as_str(), entries[at].as_str(), package.as_str());
                    Self::enter(root, package, sub_path, dir)
                } else {
                    Self::scan(root, package, sub_path, entries, at + 1)
                }
            },
            Stage::NpmDir => {
                if yes {
                    let dir = npm_package(root.as_str(), package.as_str());
                    Self::enter(root, package, sub_path, dir)
                } else {
                    Self::finished(root, package, sub_path, Err(ResolutionError::PackageNotFound))
                }
            },
            Stage::Candidate { dir, k } => match sub_path {
                Some(sub) => {
                    if yes {
                        let found = candidate(dir.as_str(), sub.as_str(), k);
                        Self::finished(root, package, Some(sub), Ok(found))
                    } else if k + 1 < ENTRY_CANDIDATES {
                        let probe = Probe::IsFile(candidate(dir.as_str(), sub.as_str(), k + 1));
                        (
                            Resolution {
                                root,
                                package,
                                sub_path: Some(sub),
                                stage: Stage::Candidate { dir, k: k + 1 },
                            },
                            Step::Ask(probe),
                        )
                    } else {
                        Self::read_manifest(root, package, Some(sub), dir)
                    }
                },
                None => Self::read_manifest(root, package, None, dir),
            },
            Stage::Manifest { dir } => match answer {
                Answer::Text(Some(text)) => match manifest_entry(text.as_str()) {
                    Ok(entry) => {
                        let path = join_path(dir.as_str(), entry.as_str());
                        let probe = Probe::IsFile(path.clone());
                        let stage = Stage::Entry { path };
                        (Resolution { root, package, sub_path, stage }, Step::Ask(probe))
                    },
                    Err(e) => Self::finished(root, package, sub_path, Err(e)),
                },
                _ => Self::finished(root, package, sub_path, Err(ResolutionError::EntryNotFound)),
            },
            Stage::Entry { path } => {
                if yes {
                    Self::finished(root, package, sub_path, Ok(path))
                } else {
                    Self::finished(root, package, sub_path, Err(ResolutionError::EntryNotFound))
                }
            },
            Stage::Finished { result } => Self::finished(root, package, sub_path, result),
        }
    }
}

} // verus!
