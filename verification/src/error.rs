//! Why a worker could not be started, and how that is told to the operator.

use vstd::prelude::*;
use vstd::string::StringExecFns;
use crate::paths::{debug, debug_text};

verus! {

/// The three families of failure.
#[derive(Clone, Copy, Debug, PartialEq, Eq, Structural)]
pub enum ErrorCategory {
    /// The place where the worker should live could not be worked out.
    PathResolution,
    /// The place was worked out, but nothing is there.
    BinaryNotFound,
    /// The operating system did not create the process.
    Spawn,
}

/// A failure to start the worker.
#[derive(Debug)]
pub enum SupervisorError {
    /// The operating system could not say where the running executable is.
    /// Holds the operating system's description of that failure.
    ExecutableLookup(String),
    /// The running executable's path has no directory part.
    NoParentDirectory,
    /// No file exists at the path held.
    BinaryNotFound(String),
    /// The operating system refused to start the process. Holds its
    /// description of the failure.
    Spawn(String),
}

/// A `SupervisorError` with its texts as sequences of characters.
pub enum Failure {
    ExecutableLookup(Seq<char>),
    NoParentDirectory,
    BinaryNotFound(Seq<char>),
    Spawn(Seq<char>),
}

impl View for SupervisorError {
    type V = Failure;

    open spec fn view(&self) -> Failure {
        match self {
            SupervisorError::ExecutableLookup(cause) => Failure::ExecutableLookup(cause@),
            SupervisorError::NoParentDirectory => Failure::NoParentDirectory,
            SupervisorError::BinaryNotFound(path) => Failure::BinaryNotFound(path@),
            SupervisorError::Spawn(cause) => Failure::Spawn(cause@),
        }
    }
}

/// The family a failure belongs to.
pub open spec fn category_of(failure: Failure) -> ErrorCategory {
    match failure {
        Failure::ExecutableLookup(_) => ErrorCategory::PathResolution,
        Failure::NoParentDirectory => ErrorCategory::PathResolution,
        Failure::BinaryNotFound(_) => ErrorCategory::BinaryNotFound,
        Failure::Spawn(_) => ErrorCategory::Spawn,
    }
}

/// The description of a failure.
pub open spec fn message_of(failure: Failure) -> Seq<char> {
    match failure {
        Failure::ExecutableLookup(cause) => "Failed to get app dir: "@ + cause,
        Failure::NoParentDirectory => "Failed to get parent directory"@,
        Failure::BinaryNotFound(path) => "Sidecar binary not found at "@ + debug_text(path),
        Failure::Spawn(cause) => "Failed to start sidecar: "@ + cause,
    }
}

/// The warning line shown to the operator for a failure.
pub open spec fn warning_of(failure: Failure) -> Seq<char> {
    "Warning: Failed to start sidecar: "@ + message_of(failure)
}

/// Whether `needle` occurs in `text` as a contiguous run.
pub open spec fn contains_text(text: Seq<char>, needle: Seq<char>) -> bool {
    exists|start: int|
        0 <= start && start + needle.len() <= text.len()
            && #[trigger] text.subrange(start, start + needle.len()) == needle
}

impl SupervisorError {
    /// The family this failure belongs to.
    pub fn category(&self) -> (category: ErrorCategory)
        ensures
            category == category_of(self@),
    {
        match self {
            SupervisorError::ExecutableLookup(_) => ErrorCategory::PathResolution,
            SupervisorError::NoParentDirectory => ErrorCategory::PathResolution,
            SupervisorError::BinaryNotFound(_) => ErrorCategory::BinaryNotFound,
            SupervisorError::Spawn(_) => ErrorCategory::Spawn,
        }
    }

    /// The description of this failure.
    pub fn message(&self) -> (text: String)
        ensures
            text@ == message_of(self@),
    {
        match self {
            SupervisorError::ExecutableLookup(cause) => {
                String::from_str("Failed to get app dir: ").concat(cause.as_str())
            },
            SupervisorError::NoParentDirectory => String::from_str("Failed to get parent directory"),
            SupervisorError::BinaryNotFound(path) => {
                let quoted = debug(path.as_str());
                String::from_str("Sidecar binary not found at ").concat(quoted.as_str())
            },
            SupervisorError::Spawn(cause) => {
                String::from_str("Failed to start sidecar: ").concat(cause.as_str())
            },
        }
    }

    /// The warning line for this failure. The failure is reported, never
    /// raised: the host goes on without the worker.
    pub fn warning(&self) -> (line: String)
        ensures
            line@ == warning_of(self@),
    {
        let message = self.message();
        String::from_str("Warning: Failed to start sidecar: ").concat(message.as_str())
    }
}

/// A text that ends in `tail` contains `tail`.
proof fn lemma_suffix_is_contained(head: Seq<char>, tail: Seq<char>)
    ensures
        contains_text(head + tail, tail),
{
    let text = head + tail;
    let start = head.len() as int;
    assert(text.subrange(start, start + tail.len()) =~= tail);
}

/// The warning for a failed spawn contains the operating system's
/// description of the failure, whatever that description is.
pub proof fn lemma_spawn_warning_contains_cause(cause: Seq<char>)
    ensures
        contains_text(warning_of(Failure::Spawn(cause)), cause),
{
    let head = "Warning: Failed to start sidecar: "@ + "Failed to start sidecar: "@;
    assert(warning_of(Failure::Spawn(cause)) =~= head + cause);
    lemma_suffix_is_contained(head, cause);
}

/// The warning for any failure contains that failure's description.
pub proof fn lemma_warning_contains_message(failure: Failure)
    ensures
        contains_text(warning_of(failure), message_of(failure)),
{
    lemma_suffix_is_contained("Warning: Failed to start sidecar: "@, message_of(failure));
}

} // verus!
