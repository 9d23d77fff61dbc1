//! The two closed enumerations of the library: where a task stands, and why
//! its value could not be had.

use vstd::prelude::*;

verus! {

/// Where a task stands in its life.
///
/// A task moves through `Unsubmitted`, `Queued`, `Running` and `Completed` in that
/// order and never back. `Waiting` belongs to the domain, but no operation of
/// this library produces it.
#[derive(Debug, PartialEq, Eq, Copy, Clone, Structural)]
pub enum TaskStatus {
    /// Not handed to a system yet.
    Unsubmitted,
    /// Reserved.
    Waiting,
    /// Accepted by the system, not started.
    Queued,
    /// Executing on a worker.
    Running,
    /// Finished: the output is there, or was there and has been taken.
    Completed,
}

/// Why [`value`](crate::task::Task::value) returned no value.
#[derive(Debug, PartialEq, Eq, Copy, Clone, Structural)]
pub enum GetValueError {
    /// The task has not completed.
    NotReady,
    /// The task has completed and an earlier call took the value.
    AlreadyTaken,
}

impl TaskStatus {
    /// Position of the status in the order in which a task passes through
    /// the statuses.
    pub open spec fn rank(self) -> nat {
        match self {
            TaskStatus::Unsubmitted => 0,
            TaskStatus::Waiting => 1,
            TaskStatus::Queued => 2,
            TaskStatus::Running => 3,
            TaskStatus::Completed => 4,
        }
    }

    /// The statuses of a task that a system has accepted.
    pub open spec fn is_submitted(self) -> bool {
        self == TaskStatus::Queued || self == TaskStatus::Running || self
            == TaskStatus::Completed
    }
}

} // verus!
