//! Where the worker executable is expected, and whether it is there.
//!
//! Resolution never touches the operating system itself. Where it needs the
//! path of the running executable it says so, and the host hands the answer
//! to `beside_executable`. Whether a file exists at the candidate path is
//! likewise the host's to find out and `confirm`'s to judge.

use vstd::prelude::*;
use crate::error::{Failure, SupervisorError};
use crate::paths::{join, joined, parent, parent_of};

verus! {

/// The directory that holds the worker in a development build, relative to
/// the build root.
pub const DEVELOPMENT_DIR: &'static str = "src-tauri/binaries";

/// The worker executable's base name.
pub const WORKER_NAME: &'static str = "main";

/// How the application was built. Fixed when it is compiled.
#[derive(Clone, Copy, Debug, PartialEq, Eq, Structural)]
pub enum BuildProfile {
    Development,
    Production,
}

/// What resolution yields before the operating system has been asked
/// anything.
#[derive(Debug)]
pub enum Resolution {
    /// The worker is expected at this path.
    Candidate(String),
    /// The worker sits beside the running executable, whose path must be
    /// looked up first.
    NeedsExecutable,
}

/// A path at which the worker executable was found to exist.
#[derive(Debug)]
pub struct ResolvedBinaryPath {
    path: String,
}

impl View for ResolvedBinaryPath {
    type V = Seq<char>;

    closed spec fn view(&self) -> Seq<char> {
        self.path@
    }
}

impl ResolvedBinaryPath {
    /// The path as text.
    pub fn as_str(&self) -> (text: &str)
        ensures
            text@ == self@,
    {
        self.path.as_str()
    }

    /// Gives up the path as text.
    pub fn into_string(self) -> (text: String)
        ensures
            text@ == self@,
    {
        self.path
    }
}

/// The worker's path in a development build.
pub open spec fn development_path() -> Seq<char> {
    joined(DEVELOPMENT_DIR@, WORKER_NAME@)
}

/// The worker's path in a production build, given how the lookup of the
/// running executable ended: with its path, or with the operating system's
/// description of a failure.
pub open spec fn production_path(lookup: Result<Seq<char>, Seq<char>>) -> Result<
    Seq<char>,
    Failure,
> {
    match lookup {
        Err(cause) => Err(Failure::ExecutableLookup(cause)),
        Ok(executable) => match parent_of(executable) {
            None => Err(Failure::NoParentDirectory),
            Some(dir) => Ok(joined(dir, WORKER_NAME@)),
        },
    }
}

/// In a production build the worker sits in the directory of the running
/// executable, under the worker's base name.
pub proof fn lemma_production_path_is_beside_executable(executable: Seq<char>, dir: Seq<char>)
    requires
        parent_of(executable) == Some(dir),
    ensures
        production_path(Ok(executable)) == Ok::<Seq<char>, Failure>(joined(dir, WORKER_NAME@)),
{
}

/// The view of a lookup's outcome.
pub open spec fn lookup_view(lookup: Result<String, String>) -> Result<Seq<char>, Seq<char>> {
    match lookup {
        Ok(executable) => Ok(executable@),
        Err(cause) => Err(cause@),
    }
}

/// Whether `outcome` is the outcome `expected`, text for text.
pub open spec fn path_outcome_is(
    outcome: Result<String, SupervisorError>,
    expected: Result<Seq<char>, Failure>,
) -> bool {
    match outcome {
        Ok(path) => expected == Ok::<Seq<char>, Failure>(path@),
        Err(error) => expected == Err::<Seq<char>, Failure>(error@),
    }
}

/// Starts resolution for `profile`.
///
/// A development build expects the worker in the fixed development
/// directory, whatever the environment holds. A production build expects
/// it beside the running executable.
pub fn resolve(profile: BuildProfile) -> (resolution: Resolution)
    ensures
        profile == BuildProfile::Development ==> (resolution matches Resolution::Candidate(path)
            && path@ == development_path()),
        profile == BuildProfile::Production ==> resolution is NeedsExecutable,
{
    match profile {
        BuildProfile::Development => Resolution::Candidate(join(DEVELOPMENT_DIR, WORKER_NAME)),
        BuildProfile::Production => Resolution::NeedsExecutable,
    }
}

/// Finishes resolution for a production build from the outcome of looking
/// up the running executable.
///
/// A failed lookup and an executable path without a directory part are
/// reported, each as its own error; neither is replaced by a default.
pub fn beside_executable(lookup: Result<String, String>) -> (outcome: Result<
    String,
    SupervisorError,
>)
    ensures
        path_outcome_is(outcome, production_path(lookup_view(lookup))),
{
    match lookup {
        Err(cause) => Err(SupervisorError::ExecutableLookup(cause)),
        Ok(executable) => match parent(executable.as_str()) {
            None => Err(SupervisorError::NoParentDirectory),
            Some(dir) => Ok(join(dir.as_str(), WORKER_NAME)),
        },
    }
}

/// Judges a candidate path by whether a file exists there.
///
/// Only a path that exists becomes a `ResolvedBinaryPath`; a missing one is
/// reported with the path that was tried.
pub fn confirm(candidate: String, exists: bool) -> (outcome: Result<
    ResolvedBinaryPath,
    SupervisorError,
>)
    ensures
        exists ==> (outcome matches Ok(path) && path@ == candidate@),
        !exists ==> (outcome matches Err(error) && error@ == Failure::BinaryNotFound(
            candidate@,
        )),
{
    if exists {
        Ok(ResolvedBinaryPath { path: candidate })
    } else {
        Err(SupervisorError::BinaryNotFound(candidate))
    }
}

} // verus!
