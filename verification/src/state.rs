//! The single slot that owns the handle of the running worker.

use vstd::prelude::*;
use crate::error::{Failure, SupervisorError};

verus! {

/// What an observer can tell about the worker from the slot alone.
///
/// A spawn that is under way is not a state of the slot: until it has
/// succeeded the slot is as it was before.
#[derive(Clone, Copy, Debug, PartialEq, Eq, Structural)]
pub enum WorkerStatus {
    /// No worker has been started, or every attempt so far has failed.
    NotStarted,
    /// A worker was started and its handle is held.
    Running,
}

/// A slot holding at most one worker handle.
///
/// `H` is whatever the host uses to refer to a running process. The slot
/// is the only owner of the handle once it has been stored.
#[derive(Debug)]
pub struct ProcessWideState<H> {
    handle: Option<H>,
}

/// What the slot holds once a spawn has ended with `outcome`, having held
/// `held` before: a new handle replaces whatever was there, and a failure
/// changes nothing.
pub open spec fn after_spawn<H>(held: Option<H>, outcome: Result<H, Seq<char>>) -> Option<H> {
    match outcome {
        Ok(handle) => Some(handle),
        Err(_) => held,
    }
}

/// The view of a spawn's outcome: the handle, or the operating system's
/// description of the failure as a sequence of characters.
pub open spec fn outcome_view<H>(outcome: Result<H, String>) -> Result<H, Seq<char>> {
    match outcome {
        Ok(handle) => Ok(handle),
        Err(cause) => Err(cause@),
    }
}

impl<H> ProcessWideState<H> {
    /// The handle held, if any.
    pub closed spec fn view(&self) -> Option<H> {
        self.handle
    }

    /// The status that corresponds to the slot's content.
    pub open spec fn spec_status(&self) -> WorkerStatus {
        if self@ is Some {
            WorkerStatus::Running
        } else {
            WorkerStatus::NotStarted
        }
    }

    /// An empty slot.
    pub fn new() -> (state: Self)
        ensures
            state@ == None::<H>,
    {
        ProcessWideState { handle: None }
    }

    /// Stores `handle`, dropping whatever was held before.
    pub fn store(&mut self, handle: H)
        ensures
            final(self)@ == Some(handle),
    {
        self.handle = Some(handle);
    }

    /// Takes in how a spawn ended.
    ///
    /// A handle is stored before this returns, in place of any held
    /// before. A failure leaves the slot as it was and is reported with the
    /// operating system's description of it.
    pub fn record(&mut self, outcome: Result<H, String>) -> (report: Result<(), SupervisorError>)
        ensures
            final(self)@ == after_spawn(old(self)@, outcome_view(outcome)),
            outcome is Ok ==> report is Ok,
            outcome matches Err(cause) ==> (report matches Err(error) && error@ == Failure::Spawn(
                cause@,
            )),
    {
        match outcome {
            Ok(handle) => {
                self.store(handle);
                Ok(())
            },
            Err(cause) => Err(SupervisorError::Spawn(cause)),
        }
    }

    /// The handle held, if any.
    pub fn handle(&self) -> (held: Option<&H>)
        ensures
            held.is_some() == (self@ is Some),
            held matches Some(h) ==> self@ == Some(*h),
    {
        self.handle.as_ref()
    }

    /// Whether a worker is recorded as running.
    #[verifier::when_used_as_spec(spec_status)]
    pub fn status(&self) -> (status: WorkerStatus)
        ensures
            status == self.spec_status(),
    {
        if self.handle.is_some() {
            WorkerStatus::Running
        } else {
            WorkerStatus::NotStarted
        }
    }
}

/// A successful spawn takes an empty slot to one that holds exactly the
/// new handle, and a second successful spawn leaves the second handle in
/// its place.
pub proof fn lemma_spawn_stores_and_overwrites<H>(first: H, second: H)
    ensures
        after_spawn(None, Ok(first)) == Some(first),
        after_spawn(after_spawn(None, Ok(first)), Ok(second)) == Some(second),
{
}

/// A failed spawn leaves the slot as it was: an empty slot stays empty.
pub proof fn lemma_failed_spawn_changes_nothing<H>(held: Option<H>, cause: Seq<char>)
    ensures
        after_spawn(held, Err(cause)) == held,
        after_spawn(None::<H>, Err(cause)) is None,
{
}

} // verus!
