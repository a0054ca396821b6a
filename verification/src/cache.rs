//! The dependency build cache: which packages have a built artifact, which
//! are being built, and what a caller who asks for a package has to do.
//!
//! The cache runs no build and waits for none. A caller claims a package
//! with `get_or_build`, runs the command it is handed, and reports how the
//! build ended with `complete`; callers that find a build under way wait
//! outside and ask `poll` what has become of it. Taking the cache by `&mut`
//! makes each claim one step, so the host keeps the cache behind one lock.

use vstd::prelude::*;
use vstd::hash_map::StringHashMap;
use vstd::hash_set::StringHashSet;
use crate::error::BuildError;
use crate::paths::{join, join_path};
use crate::text::followed_by;

verus! {

/// How far the build of one package has come.
#[derive(Clone, Copy, Debug, PartialEq, Eq, Structural)]
pub enum BuildState {
    /// No artifact, and nobody is building one.
    NotStarted,
    /// One caller is building the artifact.
    Building,
    /// The artifact has been built.
    Cached,
}

/// The cache as a mathematical value.
pub struct CacheModel {
    /// The private directory below which artifacts are kept.
    pub cache_dir: Seq<char>,
    /// For each built package, the path of its artifact below `cache_dir`.
    pub records: Map<Seq<char>, Seq<char>>,
    /// The packages that a caller is building.
    pub building: Set<Seq<char>>,
}

/// The command that builds one package.
#[derive(Debug, Clone, PartialEq, Eq)]
pub struct BuildCommand {
    /// The program to run.
    pub program: String,
    /// Its arguments, in order.
    pub args: Vec<String>,
    /// The file that the build writes.
    pub outfile: String,
}

/// A `BuildCommand` as a mathematical value.
pub struct BuildCommandView {
    pub program: Seq<char>,
    pub args: Seq<Seq<char>>,
    pub outfile: Seq<char>,
}

impl View for BuildCommand {
    type V = BuildCommandView;

    open spec fn view(&self) -> BuildCommandView {
        BuildCommandView {
            program: self.program@,
            args: self.args.deep_view(),
            outfile: self.outfile@,
        }
    }
}

/// What a caller who asked for a package has to do.
#[derive(Debug, Clone, PartialEq, Eq)]
pub enum Claim {
    /// Nothing: the artifact is at this path.
    Cached(String),
    /// Wait: another caller is building the package.
    Wait,
    /// Build: the caller has won the claim and runs this command.
    Build(BuildCommand),
}

/// A `Claim` as a mathematical value.
pub enum ClaimView {
    Cached(Seq<char>),
    Wait,
    Build(BuildCommandView),
}

impl View for Claim {
    type V = ClaimView;

    open spec fn view(&self) -> ClaimView {
        match self {
            Claim::Cached(path) => ClaimView::Cached(path@),
            Claim::Wait => ClaimView::Wait,
            Claim::Build(command) => ClaimView::Build(command@),
        }
    }
}

/// What a waiting caller learns of the build it waits for.
#[derive(Debug, Clone, PartialEq, Eq)]
pub enum Waiting {
    /// The artifact is at this path.
    Ready(String),
    /// The wait is over without an artifact.
    Failed(BuildError),
    /// The build is still under way and the wait may go on for this many
    /// milliseconds.
    Pending { left_ms: u64 },
}

/// A `Waiting` as a mathematical value.
pub enum WaitingView {
    Ready(Seq<char>),
    Failed(BuildError),
    Pending { left_ms: u64 },
}

impl View for Waiting {
    type V = WaitingView;

    open spec fn view(&self) -> WaitingView {
        match self {
            Waiting::Ready(path) => WaitingView::Ready(path@),
            Waiting::Failed(e) => WaitingView::Failed(*e),
            Waiting::Pending { left_ms } => WaitingView::Pending { left_ms: *left_ms },
        }
    }
}

/// The private cache directory of the project in `root`.
pub open spec fn cache_dir_of(root: Seq<char>) -> Seq<char> {
    join(root, "node_modules/.arashi"@)
}

/// The directory below the cache directory that holds the artifacts.
pub open spec fn deps_dir_of(cache_dir: Seq<char>) -> Seq<char> {
    join(cache_dir, "deps"@)
}

/// The path of the artifact of `package` below the cache directory.
pub open spec fn artifact_record(package: Seq<char>) -> Seq<char> {
    "deps/"@ + package + ".js"@
}

/// The argument that tells the bundling tool where to write.
pub open spec fn outfile_arg(outfile: Seq<char>) -> Seq<char> {
    "--outfile="@ + outfile
}

/// The command that bundles the module at `entry` into one ES module for
/// browsers, written to `outfile`.
pub open spec fn build_command(entry: Seq<char>, outfile: Seq<char>) -> BuildCommandView {
    BuildCommandView {
        program: "npx"@,
        args: seq![
            "esbuild"@,
            entry,
            "--bundle"@,
            "--format=esm"@,
            "--platform=browser"@,
            "--target=es2020"@,
            outfile_arg(outfile),
        ],
        outfile,
    }
}

impl CacheModel {
    /// The cache of the project in `root` before any build.
    pub open spec fn fresh(root: Seq<char>) -> CacheModel {
        CacheModel { cache_dir: cache_dir_of(root), records: Map::empty(), building: Set::empty() }
    }

    /// How far the build of `package` has come.
    pub open spec fn state(self, package: Seq<char>) -> BuildState {
        if self.records.dom().contains(package) {
            BuildState::Cached
        } else if self.building.contains(package) {
            BuildState::Building
        } else {
            BuildState::NotStarted
        }
    }

    /// The path at which the artifact of `package` is, or will be, kept.
    pub open spec fn artifact_path(self, package: Seq<char>) -> Seq<char> {
        join(self.cache_dir, artifact_record(package))
    }

    /// The path of the artifact that the cache has for `package`.
    pub open spec fn cached_path(self, package: Seq<char>) -> Option<Seq<char>> {
        if self.records.dom().contains(package) {
            Some(join(self.cache_dir, self.records[package]))
        } else {
            None
        }
    }

    /// What a caller who asks for `package`, whose module is at `entry`, is
    /// told, and the cache after the request.
    pub open spec fn claim(self, package: Seq<char>, entry: Seq<char>) -> (CacheModel, ClaimView) {
        match self.state(package) {
            BuildState::Cached => (self, ClaimView::Cached(self.cached_path(package)->0)),
            BuildState::Building => (self, ClaimView::Wait),
            BuildState::NotStarted => (
                CacheModel { building: self.building.insert(package), ..self },
                ClaimView::Build(build_command(entry, self.artifact_path(package))),
            ),
        }
    }

    /// The cache after the build of `package` has ended: the package is no
    /// longer being built, and the success of a build that was under way is
    /// recorded.
    pub open spec fn settle(self, package: Seq<char>, succeeded: bool) -> CacheModel {
        CacheModel {
            building: self.building.remove(package),
            records: if succeeded && self.state(package) == BuildState::Building {
                self.records.insert(package, artifact_record(package))
            } else {
                self.records
            },
            ..self
        }
    }

    /// What a caller who waits for the build of `package` is told after
    /// `waited_ms` of at most `limit_ms` milliseconds.
    pub open spec fn poll(self, package: Seq<char>, waited_ms: u64, limit_ms: u64) -> WaitingView {
        match self.state(package) {
            BuildState::Cached => WaitingView::Ready(self.cached_path(package)->0),
            BuildState::NotStarted => WaitingView::Failed(BuildError::BuildProcessFailure),
            BuildState::Building => if waited_ms >= limit_ms {
                WaitingView::Failed(BuildError::BuildTimeout)
            } else {
                WaitingView::Pending { left_ms: (limit_ms - waited_ms) as u64 }
            },
        }
    }
}

/// The cache of built dependencies of one project.
pub struct DepCache {
    cache_dir: String,
    metadata: StringHashMap<String>,
    building: StringHashSet,
}

impl View for DepCache {
    type V = CacheModel;

    closed spec fn view(&self) -> CacheModel {
        CacheModel {
            cache_dir: self.cache_dir@,
            records: Map::new(
                |package: Seq<char>| self.metadata@.dom().contains(package),
                |package: Seq<char>| self.metadata@[package]@,
            ),
            building: self.building@,
        }
    }
}

impl DepCache {
    /// The empty cache of the project in `root_dir`.
    pub fn new(root_dir: &str) -> (cache: DepCache)
        ensures
            cache@ == CacheModel::fresh(root_dir@),
    {
        let cache = DepCache {
            cache_dir: join_path(root_dir, "node_modules/.arashi"),
            metadata: StringHashMap::new(),
            building: StringHashSet::new(),
        };
        assert(cache@.records =~= Map::empty());
        cache
    }

    /// The directories that must exist before a build is run: the cache
    /// directory, then the directory of the artifacts. They are the same on
    /// every call, so creating them again changes nothing.
    pub fn directories(&self) -> (dirs: Vec<String>)
        ensures
            dirs.deep_view() == seq![self@.cache_dir, deps_dir_of(self@.cache_dir)],
    {
        let mut dirs: Vec<String> = Vec::new();
        dirs.push(self.cache_dir.clone());
        dirs.push(join_path(self.cache_dir.as_str(), "deps"));
        assert(dirs.deep_view() =~= seq![self@.cache_dir, deps_dir_of(self@.cache_dir)]);
        dirs
    }

    /// How far the build of `pkg_name` has come.
    pub fn state(&self, pkg_name: &str) -> (state: BuildState)
        ensures
            state == self@.state(pkg_name@),
    {
        if self.metadata.contains_key(pkg_name) {
            BuildState::Cached
        } else if self.building.contains(pkg_name) {
            BuildState::Building
        } else {
            BuildState::NotStarted
        }
    }

    /// The path of the artifact that the cache has for `pkg_name`.
    pub fn get_cached_path(&self, pkg_name: &str) -> (path: Option<String>)
        ensures
            path.deep_view() == self@.cached_path(pkg_name@),
    {
        match self.metadata.get(pkg_name) {
            Some(record) => Some(join_path(self.cache_dir.as_str(), record.as_str())),
            None => None,
        }
    }

    /// The path at which the artifact of `pkg_name` is, or will be, kept.
    pub fn artifact_path(&self, pkg_name: &str) -> (path: String)
        ensures
            path@ == self@.artifact_path(pkg_name@),
    {
        let record = Self::record_for(pkg_name);
        join_path(self.cache_dir.as_str(), record.as_str())
    }

    fn record_for(pkg_name: &str) -> (record: String)
        ensures
            record@ == artifact_record(pkg_name@),
    {
        let mut record = followed_by("deps/", pkg_name);
        record.append(".js");
        record
    }

    /// The command that builds the artifact of `pkg_name` from the module at
    /// `pkg_path`: the bundling tool in bundle mode, with ES-module output
    /// for browsers, writing to the artifact's path.
    pub fn build_dep(&self, pkg_name: &str, pkg_path: &str) -> (command: BuildCommand)
        ensures
            command@ == build_command(pkg_path@, self@.artifact_path(pkg_name@)),
    {
        let outfile = self.artifact_path(pkg_name);
        let mut args: Vec<String> = Vec::new();
        args.push("esbuild".to_owned());
        args.push(pkg_path.to_owned());
        args.push("--bundle".to_owned());
        args.push("--format=esm".to_owned());
        args.push("--platform=browser".to_owned());
        args.push("--target=es2020".to_owned());
        args.push(followed_by("--outfile=", outfile.as_str()));
        let command = BuildCommand { program: "npx".to_owned(), args, outfile };
        assert(command@.args =~= build_command(pkg_path@, self@.artifact_path(pkg_name@)).args);
        command
    }

    /// Asks for the artifact of `pkg_name`, whose module is at `pkg_path`.
    ///
    /// A cached artifact is handed out at once. Where none exists and nobody
    /// builds one, the caller wins the claim: the package counts as being
    /// built from now on, and the caller runs the command and reports its end
    /// to `complete`. Every other caller is told to wait.
    pub fn get_or_build(&mut self, pkg_name: &str, pkg_path: &str) -> (claim: Claim)
        ensures
            (final(self)@, claim@) == old(self)@.claim(pkg_name@, pkg_path@),
    {
        match self.get_cached_path(pkg_name) {
            Some(path) => Claim::Cached(path),
            None => {
                if self.building.contains(pkg_name) {
                    Claim::Wait
                } else {
                    let command = self.build_dep(pkg_name, pkg_path);
                    self.building.insert(pkg_name.to_owned());
                    assert(self@.records =~= old(self)@.records);
                    Claim::Build(command)
                }
            },
        }
    }

    /// Reports the end of the build of `pkg_name`.
    ///
    /// The package is no longer being built. The success of a build that was
    /// under way is recorded; a failure records nothing, so that a later
    /// caller may try again, and a record that exists is kept. The result is
    /// the artifact's path where the package now has a record.
    pub fn complete(&mut self, pkg_name: &str, succeeded: bool) -> (result: Result<
        String,
        BuildError,
    >)
        ensures
            final(self)@ == old(self)@.settle(pkg_name@, succeeded),
            match result {
                Ok(path) => final(self)@.cached_path(pkg_name@) == Some(path@),
                Err(e) => final(self)@.cached_path(pkg_name@) is None && e
                    == BuildError::BuildProcessFailure,
            },
    {
        let was_building = self.building.remove(pkg_name);
        if succeeded && was_building && !self.metadata.contains_key(pkg_name) {
            self.metadata.insert(pkg_name.to_owned(), Self::record_for(pkg_name));
        }
        assert(self@.records =~= old(self)@.settle(pkg_name@, succeeded).records);
        match self.get_cached_path(pkg_name) {
            Some(path) => Ok(path),
            None => Err(BuildError::BuildProcessFailure),
        }
    }

    /// Tells a caller who waits for the build of `pkg_name` what has become
    /// of it, after `waited_ms` of at most `limit_ms` milliseconds of waiting.
    ///
    /// A record ends the wait with the artifact's path. A package that is no
    /// longer being built and has no record was built in vain. While the
    /// build is under way the wait goes on for what is left of the limit,
    /// and ends with `BuildTimeout` once the limit is reached.
    pub fn poll(&self, pkg_name: &str, waited_ms: u64, limit_ms: u64) -> (waiting: Waiting)
        ensures
            waiting@ == self@.poll(pkg_name@, waited_ms, limit_ms),
    {
        match self.get_cached_path(pkg_name) {
            Some(path) => Waiting::Ready(path),
            None => {
                if !self.building.contains(pkg_name) {
                    Waiting::Failed(BuildError::BuildProcessFailure)
                } else if waited_ms >= limit_ms {
                    Waiting::Failed(BuildError::BuildTimeout)
                } else {
                    Waiting::Pending { left_ms: limit_ms - waited_ms }
                }
            },
        }
    }
}

/// The answers that `n` callers in a row get who ask for `package` while no
/// build ends, and the cache after the last of them.
pub open spec fn claims_in_a_row(
    cache: CacheModel,
    package: Seq<char>,
    entry: Seq<char>,
    n: nat,
) -> (CacheModel, Seq<ClaimView>)
    decreases n,
{
    if n == 0 {
        (cache, Seq::empty())
    } else {
        let first = cache.claim(package, entry);
        let rest = claims_in_a_row(first.0, package, entry, (n - 1) as nat);
        (rest.0, seq![first.1] + rest.1)
    }
}

/// While a package is being built or has a record, nobody is told to build
/// it, and asking for it leaves the cache as it is: at most one build of a
/// package is under way at any time.
pub proof fn lemma_one_build_in_flight(cache: CacheModel, package: Seq<char>, entry: Seq<char>)
    requires
        cache.state(package) != BuildState::NotStarted,
    ensures
        !(cache.claim(package, entry).1 is Build),
        cache.claim(package, entry).0 == cache,
{
}

/// Callers who only wait change nothing: after any number of further
/// requests the package is still being built, and each was told to wait.
pub proof fn lemma_waiters_only_wait(
    cache: CacheModel,
    package: Seq<char>,
    entry: Seq<char>,
    n: nat,
)
    requires
        cache.state(package) == BuildState::Building,
    ensures
        claims_in_a_row(cache, package, entry, n).0 == cache,
        claims_in_a_row(cache, package, entry, n).1.len() == n,
        forall|i: int|
            0 <= i < n ==> claims_in_a_row(cache, package, entry, n).1[i] == ClaimView::Wait,
    decreases n,
{
    if n > 0 {
        lemma_waiters_only_wait(cache, package, entry, (n - 1) as nat);
    }
}

/// Of `n` callers who ask for a package that has not been built, exactly
/// one, the first, is told to build it, and all others are told to wait. Once
/// that build has succeeded, the builder, every waiting caller and every
/// later caller get one and the same artifact path.
pub proof fn lemma_one_build_for_many_callers(
    cache: CacheModel,
    package: Seq<char>,
    entry: Seq<char>,
    n: nat,
    waited_ms: u64,
    limit_ms: u64,
)
    requires
        cache.state(package) == BuildState::NotStarted,
        n >= 1,
    ensures
        ({
            let (after, answers) = claims_in_a_row(cache, package, entry, n);
            let artifact = cache.artifact_path(package);
            let built = after.settle(package, true);
            &&& answers.len() == n
            &&& answers[0] == ClaimView::Build(build_command(entry, artifact))
            &&& forall|i: int| 1 <= i < n ==> answers[i] == ClaimView::Wait
            &&& after.state(package) == BuildState::Building
            &&& built.cached_path(package) == Some(artifact)
            &&& built.poll(package, waited_ms, limit_ms) == WaitingView::Ready(artifact)
            &&& built.claim(package, entry) == (built, ClaimView::Cached(artifact))
        }),
{
    let first = cache.claim(package, entry);
    let rest = claims_in_a_row(first.0, package, entry, (n - 1) as nat);
    lemma_waiters_only_wait(first.0, package, entry, (n - 1) as nat);
    let answers = claims_in_a_row(cache, package, entry, n).1;
    assert(answers == seq![first.1] + rest.1);
    assert forall|i: int| 1 <= i < n implies answers[i] == ClaimView::Wait by {
        assert(answers[i] == rest.1[i - 1]);
    }
}

/// A record, once written, is never overwritten: whatever is asked for or
/// reported later, the package keeps the artifact path it has.
pub proof fn lemma_record_is_kept(
    cache: CacheModel,
    recorded: Seq<char>,
    package: Seq<char>,
    entry: Seq<char>,
    succeeded: bool,
)
    requires
        cache.state(recorded) == BuildState::Cached,
    ensures
        cache.claim(package, entry).0.cached_path(recorded) == cache.cached_path(recorded),
        cache.settle(package, succeeded).cached_path(recorded) == cache.cached_path(recorded),
{
}

/// A failed build leaves no record: the package counts as not started again,
/// no other package's state changes, and the next caller who asks is told to
/// build it.
pub proof fn lemma_failed_build_can_be_retried(
    cache: CacheModel,
    package: Seq<char>,
    entry: Seq<char>,
)
    requires
        cache.state(package) == BuildState::Building,
    ensures
        cache.settle(package, false).records == cache.records,
        cache.settle(package, false).state(package) == BuildState::NotStarted,
        forall|other: Seq<char>|
            other != package ==> #[trigger] cache.settle(package, false).state(other)
                == cache.state(other),
        cache.settle(package, false).claim(package, entry).1 is Build,
        cache.settle(package, false).claim(package, entry).0.settle(package, true).state(package)
            == BuildState::Cached,
{
}

/// One step of the cache's history: a request for a package, or the end of
/// a build.
pub enum CacheEvent {
    /// A caller asks for `package`, whose module is at `entry`.
    Request { package: Seq<char>, entry: Seq<char> },
    /// The build of `package` ends.
    BuildEnd { package: Seq<char>, succeeded: bool },
}

/// The cache after one event.
pub open spec fn after_event(cache: CacheModel, event: CacheEvent) -> CacheModel {
    match event {
        CacheEvent::Request { package, entry } => cache.claim(package, entry).0,
        CacheEvent::BuildEnd { package, succeeded } => cache.settle(package, succeeded),
    }
}

/// Whether the event starts a build of `package`: it is a request for it
/// that is answered with the command to build.
pub open spec fn starts_build(cache: CacheModel, event: CacheEvent, package: Seq<char>) -> bool {
    event matches CacheEvent::Request { package: asked, entry } && asked == package && cache.claim(
        asked,
        entry,
    ).1 is Build
}

/// How many builds of `package` are started in the course of `events`.
pub open spec fn builds_started(
    cache: CacheModel,
    events: Seq<CacheEvent>,
    package: Seq<char>,
) -> nat
    decreases events.len(),
{
    if events.len() == 0 {
        0
    } else {
        let rest = builds_started(after_event(cache, events[0]), events.drop_first(), package);
        if starts_build(cache, events[0], package) {
            1 + rest
        } else {
            rest
        }
    }
}

/// The state of a package changes only as its build goes: from not started
/// to building when a caller wins the claim, from building to cached when
/// the build succeeds, and from building back to not started when it fails.
pub proof fn lemma_states_follow_the_build(
    cache: CacheModel,
    event: CacheEvent,
    package: Seq<char>,
)
    ensures
        ({
            let before = cache.state(package);
            let after = after_event(cache, event).state(package);
            ||| after == before
            ||| before == BuildState::NotStarted && after == BuildState::Building && starts_build(
                cache,
                event,
                package,
            )
            ||| before == BuildState::Building && after == BuildState::Cached && event
                == (CacheEvent::BuildEnd { package, succeeded: true })
            ||| before == BuildState::Building && after == BuildState::NotStarted && event
                == (CacheEvent::BuildEnd { package, succeeded: false })
        }),
{
}

/// Requests for other packages and the ends of their builds leave a package
/// alone: its state and its artifact path stay what they are.
pub proof fn lemma_packages_are_independent(
    cache: CacheModel,
    package: Seq<char>,
    event: CacheEvent,
)
    requires
        match event {
            CacheEvent::Request { package: other, .. } => other != package,
            CacheEvent::BuildEnd { package: other, .. } => other != package,
        },
    ensures
        after_event(cache, event).state(package) == cache.state(package),
        after_event(cache, event).cached_path(package) == cache.cached_path(package),
{
}

/// However requests for any packages and the ends of other builds
/// interleave: as long as no build of a package ends, at most one build of it
/// is started, and none where one is under way or its artifact is recorded.
pub proof fn lemma_at_most_one_build_is_started(
    cache: CacheModel,
    events: Seq<CacheEvent>,
    package: Seq<char>,
)
    requires
        forall|i: int|
            0 <= i < events.len() ==> !(#[trigger] events[i] matches CacheEvent::BuildEnd {
                package: ended,
                ..
            } && ended == package),
    ensures
        builds_started(cache, events, package) <= 1,
        cache.state(package) != BuildState::NotStarted ==> builds_started(cache, events, package)
            == 0,
    decreases events.len(),
{
    if events.len() > 0 {
        let rest = events.drop_first();
        assert forall|i: int| 0 <= i < rest.len() implies !(#[trigger] rest[i]
            matches CacheEvent::BuildEnd { package: ended, .. } && ended == package) by {
            assert(rest[i] == events[i + 1]);
        }
        let next = after_event(cache, events[0]);
        lemma_at_most_one_build_is_started(next, rest, package);
        assert(!(events[0] matches CacheEvent::BuildEnd { package: ended, .. }
            && ended == package));
        if starts_build(cache, events[0], package) {
            assert(next.state(package) == BuildState::Building);
        } else if cache.state(package) != BuildState::NotStarted {
            assert(next.state(package) != BuildState::NotStarted);
        }
    }
}

} // verus!

