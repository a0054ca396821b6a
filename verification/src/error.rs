//! The failures that resolution and building report, and the HTTP status each
//! one is answered with.

use vstd::prelude::*;

verus! {

/// Why a specifier could not be resolved to a file.
#[derive(Clone, Copy, Debug, PartialEq, Eq, Structural)]
pub enum ResolutionError {
    /// The project root holds neither a pnpm nor an npm lockfile.
    NoLockfile,
    /// A manifest exists but is not well-formed.
    ManifestParseError,
    /// The package is not installed under the project root.
    PackageNotFound,
    /// The package is installed, but no file answers the specifier.
    EntryNotFound,
}

/// Why no artifact could be handed out for a package.
#[derive(Clone, Copy, Debug, PartialEq, Eq, Structural)]
pub enum BuildError {
    /// The bundling tool ended with a failure.
    BuildProcessFailure,
    /// A build by another caller did not end within the allowed wait.
    BuildTimeout,
}

/// A resolved path or a resolution failure, with the path as a character
/// sequence.
pub type Outcome = Result<Seq<char>, ResolutionError>;

/// The mathematical value of a resolution's result.
pub open spec fn outcome_view(r: Result<String, ResolutionError>) -> Outcome {
    match r {
        Ok(path) => Ok(path@),
        Err(e) => Err(e),
    }
}

/// The status that answers a resolution failure: 404 where the package or
/// its entry is missing, 500 for a broken project configuration.
pub open spec fn resolution_status(e: ResolutionError) -> u16 {
    match e {
        ResolutionError::NoLockfile => 500,
        ResolutionError::ManifestParseError => 500,
        ResolutionError::PackageNotFound => 404,
        ResolutionError::EntryNotFound => 404,
    }
}

/// The status that answers a build failure: 500 for a failed build, 504 for
/// a wait that ran out.
pub open spec fn build_status(e: BuildError) -> u16 {
    match e {
        BuildError::BuildProcessFailure => 500,
        BuildError::BuildTimeout => 504,
    }
}

/// The sentence that names a resolution failure.
pub open spec fn resolution_message(e: ResolutionError) -> Seq<char> {
    match e {
        ResolutionError::NoLockfile => "no lockfile found: install the dependencies first"@,
        ResolutionError::ManifestParseError => "a package manifest is malformed"@,
        ResolutionError::PackageNotFound => "the package is not installed"@,
        ResolutionError::EntryNotFound => "the package has no entry file for this import"@,
    }
}

/// The sentence that names a build failure.
pub open spec fn build_message(e: BuildError) -> Seq<char> {
    match e {
        BuildError::BuildProcessFailure => "the bundling tool failed"@,
        BuildError::BuildTimeout => "the build of this package did not end in time; try again"@,
    }
}

impl ResolutionError {
    /// The HTTP status that reports this failure.
    pub fn status(&self) -> (code: u16)
        ensures
            code == resolution_status(*self),
    {
        match self {
            ResolutionError::NoLockfile => 500,
            ResolutionError::ManifestParseError => 500,
            ResolutionError::PackageNotFound => 404,
            ResolutionError::EntryNotFound => 404,
        }
    }

    /// A sentence that names this failure.
    pub fn message(&self) -> (text: &'static str)
        ensures
            text@ == resolution_message(*self),
    {
        match self {
            ResolutionError::NoLockfile => "no lockfile found: install the dependencies first",
            ResolutionError::ManifestParseError => "a package manifest is malformed",
            ResolutionError::PackageNotFound => "the package is not installed",
            ResolutionError::EntryNotFound => "the package has no entry file for this import",
        }
    }
}

impl BuildError {
    /// The HTTP status that reports this failure.
    pub fn status(&self) -> (code: u16)
        ensures
            code == build_status(*self),
    {
        match self {
            BuildError::BuildProcessFailure => 500,
            BuildError::BuildTimeout => 504,
        }
    }

    /// A sentence that names this failure.
    pub fn message(&self) -> (text: &'static str)
        ensures
            text@ == build_message(*self),
    {
        match self {
            BuildError::BuildProcessFailure => "the bundling tool failed",
            BuildError::BuildTimeout => "the build of this package did not end in time; try again",
        }
    }
}

} // verus!
