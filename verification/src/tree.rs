//! A project tree held in memory: files with their text and directories with
//! their entries. It answers the resolver's questions as a file system does,
//! so that a resolution can be run, and checked, without one.

use vstd::prelude::*;
use crate::error::{outcome_view, ResolutionError};
use crate::layout::{detect_layout, PackageLayout};
use crate::paths::{npm_lock, pnpm_lock};
use crate::resolver::{
    lemma_answer_brings_closer, lemma_begin_resolves, lemma_resolved_path_is_a_file,
    lemma_true_answer_keeps_outcome, resolve_in, Answer, FsModel, Probe, Resolution, Step,
};
use crate::text::{index_of, lemma_index_of, lemma_index_of_is, starts_with, str_eq};

verus! {

/// What stands at each path, where `values[i]` was put at `paths[i]`: of two
/// values at one path the first counts.
pub open spec fn table<T>(paths: Seq<Seq<char>>, values: Seq<T>) -> Map<Seq<char>, T> {
    Map::new(
        |path: Seq<char>| index_of(paths, path) < paths.len(),
        |path: Seq<char>| values[index_of(paths, path)],
    )
}

/// Where `p` first stands once `path` has been put behind `paths`: where it
/// stood, or at the new place if it is `path` and stood nowhere.
proof fn lemma_table_entry<T>(
    paths: Seq<Seq<char>>,
    values: Seq<T>,
    path: Seq<char>,
    value: T,
    p: Seq<char>,
)
    requires
        paths.len() == values.len(),
    ensures
        0 <= index_of(paths, p) <= paths.len(),
        index_of(paths, p) < paths.len() ==> index_of(paths.push(path), p) == index_of(paths, p)
            && values.push(value)[index_of(paths, p)] == values[index_of(paths, p)],
        index_of(paths, p) == paths.len() && p == path ==> index_of(paths.push(path), p)
            == paths.len() && values.push(value)[paths.len() as int] == value,
        index_of(paths, p) == paths.len() && p != path ==> index_of(paths.push(path), p)
            == paths.len() + 1,
{
    lemma_index_of(paths, p);
    let k = index_of(paths, p);
    if k < paths.len() {
        lemma_index_of_is(paths.push(path), p, k);
    } else if p == path {
        lemma_index_of_is(paths.push(path), p, paths.len() as int);
    } else {
        lemma_index_of_is(paths.push(path), p, paths.len() as int + 1);
    }
}

/// Putting a value at a path adds it to the table, unless the path is taken.
pub proof fn lemma_table_push<T>(paths: Seq<Seq<char>>, values: Seq<T>, path: Seq<char>, value: T)
    requires
        paths.len() == values.len(),
    ensures
        table(paths.push(path), values.push(value)) == if table(paths, values).dom().contains(
            path,
        ) {
            table(paths, values)
        } else {
            table(paths, values).insert(path, value)
        },
        table(paths.push(path), values.push(value)).dom() == table(paths, values).dom().insert(
            path,
        ),
{
    let before = table(paths, values);
    let after = table(paths.push(path), values.push(value));
    let expected = if before.dom().contains(path) {
        before
    } else {
        before.insert(path, value)
    };
    assert forall|p: Seq<char>|
        after.dom().contains(p) == expected.dom().contains(p) && after.dom().contains(p)
            == before.dom().insert(path).contains(p) by {
        lemma_table_entry(paths, values, path, value, p);
    }
    assert forall|p: Seq<char>| after.dom().contains(p) implies after[p] == expected[p] by {
        lemma_table_entry(paths, values, path, value, p);
    }
    assert(after =~= expected);
    assert(after.dom() =~= before.dom().insert(path));
}

/// The paths of `nodes`, in order.
pub open spec fn paths_of<T>(nodes: Seq<(String, T)>) -> Seq<Seq<char>> {
    Seq::new(nodes.len(), |i: int| nodes[i].0@)
}

/// The texts of `files`, in order.
pub open spec fn texts_of(files: Seq<(String, String)>) -> Seq<Seq<char>> {
    Seq::new(files.len(), |i: int| files[i].1@)
}

/// The entry lists of `dirs`, in order.
pub open spec fn entries_of(dirs: Seq<(String, Vec<String>)>) -> Seq<Seq<Seq<char>>> {
    Seq::new(dirs.len(), |i: int| dirs[i].1.deep_view())
}

/// The position of the first of `nodes` at `path`, or their number where
/// none is.
fn find<T>(nodes: &Vec<(String, T)>, path: &str) -> (i: usize)
    ensures
        i == index_of(paths_of(nodes@), path@),
        i <= nodes.len(),
{
    let mut i: usize = 0;
    while i < nodes.len() && !str_eq(nodes[i].0.as_str(), path)
        invariant
            i <= nodes.len(),
            forall|j: int| 0 <= j < i ==> paths_of(nodes@)[j] != path@,
        decreases nodes.len() - i,
    {
        i += 1;
    }
    proof {
        lemma_index_of_is(paths_of(nodes@), path@, i as int);
    }
    i
}

/// A project tree held in memory. Of two files, or two directories, at one
/// path the one added first counts.
#[derive(Debug)]
pub struct FileTree {
    files: Vec<(String, String)>,
    dirs: Vec<(String, Vec<String>)>,
}

impl View for FileTree {
    type V = FsModel;

    /// The file system that the tree stands for.
    closed spec fn view(&self) -> FsModel {
        FsModel {
            files: table(paths_of(self.files@), texts_of(self.files@)).dom(),
            dirs: table(paths_of(self.dirs@), entries_of(self.dirs@)).dom(),
            listings: table(paths_of(self.dirs@), entries_of(self.dirs@)),
            texts: table(paths_of(self.files@), texts_of(self.files@)),
        }
    }
}

impl FileTree {
    /// The tree without any node.
    pub fn new() -> (tree: FileTree)
        ensures
            tree@ == FsModel::empty(),
    {
        let tree = FileTree { files: Vec::new(), dirs: Vec::new() };
        assert(tree@.files =~= Set::<Seq<char>>::empty());
        assert(tree@.dirs =~= Set::<Seq<char>>::empty());
        assert(tree@.listings =~= Map::<Seq<char>, Seq<Seq<char>>>::empty());
        assert(tree@.texts =~= Map::<Seq<char>, Seq<char>>::empty());
        tree
    }

    /// Adds a file with its text.
    pub fn add_file(&mut self, path: &str, text: &str)
        ensures
            final(self)@.files == old(self)@.files.insert(path@),
            final(self)@.dirs == old(self)@.dirs,
            final(self)@.listings == old(self)@.listings,
            final(self)@.texts == if old(self)@.files.contains(path@) {
                old(self)@.texts
            } else {
                old(self)@.texts.insert(path@, text@)
            },
    {
        self.files.push((path.to_owned(), text.to_owned()));
        proof {
            let paths = paths_of(old(self).files@);
            let texts = texts_of(old(self).files@);
            assert(paths_of(self.files@) =~= paths.push(path@));
            assert(texts_of(self.files@) =~= texts.push(text@));
            lemma_table_push(paths, texts, path@, text@);
        }
    }

    /// Adds a directory with the names of its entries.
    pub fn add_dir(&mut self, path: &str, entries: Vec<String>)
        ensures
            final(self)@.dirs == old(self)@.dirs.insert(path@),
            final(self)@.files == old(self)@.files,
            final(self)@.texts == old(self)@.texts,
            final(self)@.listings == if old(self)@.dirs.contains(path@) {
                old(self)@.listings
            } else {
                old(self)@.listings.insert(path@, entries.deep_view())
            },
    {
        let ghost listed = entries.deep_view();
        self.dirs.push((path.to_owned(), entries));
        proof {
            let paths = paths_of(old(self).dirs@);
            let all = entries_of(old(self).dirs@);
            assert(paths_of(self.dirs@) =~= paths.push(path@));
            assert(entries_of(self.dirs@) =~= all.push(listed));
            lemma_table_push(paths, all, path@, listed);
        }
    }

    /// Answers a question of the resolver as the file system that this tree
    /// stands for.
    pub fn answer(&self, probe: &Probe) -> (answer: Answer)
        ensures
            answer@ == self@.answer(probe@),
    {
        match probe {
            Probe::IsFile(path) => Answer::Exists(find(&self.files, path.as_str()) < self.files.len()),
            Probe::IsDir(path) => Answer::Exists(find(&self.dirs, path.as_str()) < self.dirs.len()),
            Probe::ListDir(path) => {
                let i = find(&self.dirs, path.as_str());
                if i < self.dirs.len() {
                    let entries = &self.dirs[i].1;
                    let mut names: Vec<String> = Vec::new();
                    let mut j: usize = 0;
                    while j < entries.len()
                        invariant
                            j <= entries.len(),
                            names.deep_view() == entries.deep_view().take(j as int),
                        decreases entries.len() - j,
                    {
                        let ghost copied = names.deep_view();
                        names.push(entries[j].clone());
                        assert(names.deep_view() =~= copied.push(entries@[j as int]@));
                        assert(names.deep_view() =~= entries.deep_view().take(j + 1));
                        j += 1;
                    }
                    assert(names.deep_view() =~= entries.deep_view());
                    Answer::Entries(Some(names))
                } else {
                    Answer::Entries(None)
                }
            },
            Probe::ReadText(path) => {
                let i = find(&self.files, path.as_str());
                if i < self.files.len() {
                    Answer::Text(Some(self.files[i].1.clone()))
                } else {
                    Answer::Text(None)
                }
            },
        }
    }
}

/// Resolves the specifier `specifier` below `root_dir` in the project that
/// `tree` holds: the layout is taken from the lockfiles, and the resolution
/// is run to its end on the tree's answers. A path that comes out names a
/// file of the tree below `root_dir`; a tree without lockfile gives
/// `NoLockfile` for every specifier.
pub fn resolve_module_path(tree: &FileTree, root_dir: &str, specifier: &str) -> (resolved: Result<
    String,
    ResolutionError,
>)
    ensures
        outcome_view(resolved) == resolve_in(tree@, root_dir@, specifier@),
        resolved matches Ok(path) ==> tree@.files.contains(path@) && starts_with(
            path@,
            root_dir@,
        ),
        tree@.layout(root_dir@) == PackageLayout::Unknown ==> resolved == Err::<
            String,
            ResolutionError,
        >(ResolutionError::NoLockfile),
{
    let has_pnpm = match tree.answer(&Probe::IsFile(pnpm_lock(root_dir))) {
        Answer::Exists(b) => b,
        _ => false,
    };
    let has_npm = match tree.answer(&Probe::IsFile(npm_lock(root_dir))) {
        Answer::Exists(b) => b,
        _ => false,
    };
    let layout = detect_layout(has_pnpm, has_npm);
    let (mut state, mut step) = Resolution::start(root_dir, specifier, layout);
    proof {
        lemma_begin_resolves(tree@, root_dir@, specifier@, layout);
    }
    loop
        invariant
            state@.wf(),
            step@ == state@.step(),
            state@.outcome(tree@) == resolve_in(tree@, root_dir@, specifier@),
        decreases state@.measure().0, state@.measure().1,
    {
        match step {
            Step::Done(resolved) => {
                proof {
                    if resolved is Ok {
                        lemma_resolved_path_is_a_file(
                            tree@,
                            tree@.layout(root_dir@),
                            root_dir@,
                            specifier@,
                            resolved->Ok_0@,
                        );
                    }
                }
                return resolved;
            },
            Step::Ask(probe) => {
                let answer = tree.answer(&probe);
                proof {
                    lemma_answer_brings_closer(state@, answer@);
                    lemma_true_answer_keeps_outcome(state@, tree@);
                }
                let next = state.advance(answer);
                state = next.0;
                step = next.1;
            },
        }
    }
}

} // verus!
