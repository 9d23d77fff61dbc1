//! The state that a task handle shares with the worker that runs the task.

use vstd::prelude::*;
use crate::status::GetValueError;
use crate::status::TaskStatus;

verus! {

/// Status and output of one task.
///
/// The value is its own mathematical model: contracts speak of the two fields
/// directly. The operations below are the only ones the library applies to a
/// shared state, each under the lock of the task it belongs to, and each is
/// one [`Event`] of the life of the task.
pub struct TaskSharedState<O> {
    pub status: TaskStatus,
    pub output: Option<O>,
}

/// One step in the life of a task, as its shared state sees it.
pub enum Event<O> {
    /// The system accepts the task.
    Queue,
    /// A worker starts on the task.
    Start,
    /// The closure has returned this value.
    Complete(O),
    /// A caller asks for the value.
    Take,
    /// The worker lets the callers go that wait for the task.
    Open,
}

impl<O> TaskSharedState<O> {
    /// The state of a task that no system has seen.
    pub open spec fn fresh() -> Self {
        TaskSharedState { status: TaskStatus::Unsubmitted, output: None }
    }

    /// The state with another status and the same output.
    pub open spec fn with_status(self, status: TaskStatus) -> Self {
        TaskSharedState { status, output: self.output }
    }

    /// The state once the closure has returned `value`.
    pub open spec fn completed_with(self, value: O) -> Self {
        TaskSharedState { status: TaskStatus::Completed, output: Some(value) }
    }

    /// What an attempt to take the value returns in this state.
    pub open spec fn take_outcome(self) -> Result<O, GetValueError> {
        if self.status == TaskStatus::Completed {
            match self.output {
                Some(value) => Ok(value),
                None => Err(GetValueError::AlreadyTaken),
            }
        } else {
            Err(GetValueError::NotReady)
        }
    }

    /// The state that an attempt to take the value leaves behind: the output
    /// is gone if the task has completed, and nothing changes otherwise.
    pub open spec fn after_take(self) -> Self {
        if self.status == TaskStatus::Completed {
            TaskSharedState { status: TaskStatus::Completed, output: None }
        } else {
            self
        }
    }

    /// An output is present only once the task has completed.
    pub open spec fn wf(self) -> bool {
        self.output is Some ==> self.status == TaskStatus::Completed
    }

    /// Whether the step can be taken in this state: the system queues a task
    /// that it has not seen, a worker starts a queued task, completes a
    /// running one and lets the waiting callers go once it has completed, and
    /// a caller may ask for the value at any time.
    pub open spec fn enabled(self, event: Event<O>) -> bool {
        match event {
            Event::Queue => self.status == TaskStatus::Unsubmitted,
            Event::Start => self.status == TaskStatus::Queued,
            Event::Complete(_) => self.status == TaskStatus::Running,
            Event::Take => true,
            Event::Open => self.status == TaskStatus::Completed,
        }
    }

    /// The state after the step.
    pub open spec fn apply(self, event: Event<O>) -> Self {
        match event {
            Event::Queue => self.with_status(TaskStatus::Queued),
            Event::Start => self.with_status(TaskStatus::Running),
            Event::Complete(value) => self.completed_with(value),
            Event::Take => self.after_take(),
            Event::Open => self,
        }
    }

    /// Creates the state of a task that no system has seen.
    pub fn new() -> (state: Self)
        ensures
            state == Self::fresh(),
    {
        TaskSharedState { status: TaskStatus::Unsubmitted, output: None }
    }

    /// Records that a system has accepted the task, which no system has seen
    /// before.
    pub fn mark_queued(&mut self)
        requires
            old(self).enabled(Event::Queue),
        ensures
            *final(self) == old(self).apply(Event::Queue),
    {
        self.status = TaskStatus::Queued;
    }

    /// Records that a worker has started on the task, which was queued.
    pub fn mark_running(&mut self)
        requires
            old(self).enabled(Event::Start),
        ensures
            *final(self) == old(self).apply(Event::Start),
    {
        self.status = TaskStatus::Running;
    }

    /// Stores the value that the closure returned and records that the task,
    /// which was running, has completed.
    pub fn mark_completed(&mut self, value: O)
        requires
            old(self).enabled(Event::Complete(value)),
        ensures
            *final(self) == old(self).apply(Event::Complete(value)),
    {
        self.output = Some(value);
        self.status = TaskStatus::Completed;
    }

    /// The status as it stands.
    pub fn status(&self) -> (status: TaskStatus)
        ensures
            status == self.status,
    {
        self.status
    }

    /// Whether the task is accepted and not started.
    pub fn queued(&self) -> (yes: bool)
        ensures
            yes == (self.status == TaskStatus::Queued),
    {
        self.status == TaskStatus::Queued
    }

    /// Whether a worker is executing the task.
    pub fn running(&self) -> (yes: bool)
        ensures
            yes == (self.status == TaskStatus::Running),
    {
        self.status == TaskStatus::Running
    }

    /// Whether the task has completed.
    pub fn completed(&self) -> (yes: bool)
        ensures
            yes == (self.status == TaskStatus::Completed),
    {
        self.status == TaskStatus::Completed
    }

    /// Takes the value out, if the task has completed and the value is still
    /// there.
    ///
    /// Returns `Ok` with the stored value and leaves the output empty when the
    /// status is `Completed` and an output is present; `Err(AlreadyTaken)`
    /// when the status is `Completed` and the output is empty; and
    /// `Err(NotReady)`, with the state untouched, for every other status.
    pub fn take_value(&mut self) -> (result: Result<O, GetValueError>)
        ensures
            result == old(self).take_outcome(),
            *final(self) == old(self).apply(Event::Take),
    {
        match self.status {
            TaskStatus::Completed => {
                match self.output.take() {
                    Some(value) => Ok(value),
                    None => Err(GetValueError::AlreadyTaken),
                }
            },
            _ => Err(GetValueError::NotReady),
        }
    }
}

} // verus!
