//! Execution status of a workflow or of one of its nodes.

use vstd::prelude::*;

verus! {

/// The state a workflow or node is in during its lifecycle.
#[derive(Debug, Clone, Copy, PartialEq, Eq, Structural)]
pub enum Status {
    /// Waiting to be executed.
    Pending,
    /// Preparing to start execution.
    Starting,
    /// Currently being executed.
    Running,
    /// Completed successfully.
    Done,
    /// Failed during execution.
    Failed,
    /// Skipped, for example because of a condition.
    Skipped,
    /// Unknown or undefined.
    Unknown,
    /// Execution has been paused.
    Paused,
    /// Execution has been stopped.
    Stopped,
}

impl Status {
    /// A completed status is one from which execution will not continue.
    pub open spec fn spec_is_completed(self) -> bool {
        self is Done || self is Failed || self is Skipped || self is Stopped
    }

    /// An active status is one in which execution is under way or suspended.
    pub open spec fn spec_is_active(self) -> bool {
        self is Starting || self is Running || self is Paused
    }

    /// Returns `true` for `Done`, `Failed`, `Skipped` and `Stopped`.
    pub fn is_completed(&self) -> (r: bool)
        ensures
            r == self.spec_is_completed(),
    {
        matches!(self, Status::Done | Status::Failed | Status::Skipped | Status::Stopped)
    }

    /// Returns `true` for `Done` only.
    pub fn is_successful(&self) -> (r: bool)
        ensures
            r == (*self is Done),
    {
        matches!(self, Status::Done)
    }

    /// Returns `true` for `Failed` only.
    pub fn is_failed(&self) -> (r: bool)
        ensures
            r == (*self is Failed),
    {
        matches!(self, Status::Failed)
    }

    /// Returns `true` for `Starting`, `Running` and `Paused`.
    pub fn is_active(&self) -> (r: bool)
        ensures
            r == self.spec_is_active(),
    {
        matches!(self, Status::Starting | Status::Running | Status::Paused)
    }
}

impl Default for Status {
    fn default() -> (r: Self)
        ensures
            r is Pending,
    {
        Status::Pending
    }
}

} // verus!
