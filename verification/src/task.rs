//! The handle on one unit of deferred work.

use vstd::prelude::*;
use vstd::rwlock::RwLock;
use vstd::rwlock::RwLockPredicate;
use std::sync::Arc;
use crate::latch::Latch;
use crate::parcel::Parcel;
use crate::state::Event;
use crate::state::TaskSharedState;
use crate::status::GetValueError;
use crate::status::TaskStatus;

verus! {

/// What a handle knows of the state behind its lock, whoever writes it.
///
/// It is fixed when the task is made and is the view of the handle. The lock
/// stores only states that the promise admits, so every read through the
/// handle returns such a state.
#[verifier::reject_recursive_types(O)]
pub struct Promise<O> {
    /// Whether a system has accepted the task.
    pub submitted: bool,
    /// The values that the closure of the task may return.
    pub result: spec_fn(O) -> bool,
}

impl<O> Promise<O> {
    /// The promise of a task that no system has seen: it has no closure, so
    /// no value can come of it.
    pub open spec fn unsubmitted() -> Self {
        Promise { submitted: false, result: |value: O| false }
    }

    /// The state that the lock holds first: queued for a task that a system
    /// has accepted, fresh for one that no system has seen.
    pub open spec fn first_state(self) -> TaskSharedState<O> {
        if self.submitted {
            TaskSharedState::fresh().apply(Event::Queue)
        } else {
            TaskSharedState::fresh()
        }
    }

    /// The statuses that a reader may see.
    pub open spec fn admits_status(self, status: TaskStatus) -> bool {
        if self.submitted {
            status.is_submitted()
        } else {
            status == TaskStatus::Unsubmitted
        }
    }

    /// The states that the lock may hold: the status is one that a reader may
    /// see, and an output is there only once the task has completed and is a
    /// value that the closure may return.
    pub open spec fn admits(self, state: TaskSharedState<O>) -> bool {
        &&& self.admits_status(state.status)
        &&& state.wf()
        &&& state.output matches Some(value) ==> self.submitted && (self.result)(value)
    }

    /// The steps that the library takes on the state of a task under its
    /// lock: every step but queueing, which comes before the lock is made,
    /// and completion only with a value that the closure may return.
    pub open spec fn admits_step(self, event: Event<O>) -> bool {
        match event {
            Event::Queue => false,
            Event::Complete(value) => (self.result)(value),
            _ => true,
        }
    }
}

impl<O> RwLockPredicate<Parcel<TaskSharedState<O>>> for Promise<O> {
    open spec fn inv(self, parcel: Parcel<TaskSharedState<O>>) -> bool {
        self.admits(parcel@)
    }
}

/// A handle on one unit of deferred work and its single result.
///
/// The handle and the worker share one [`TaskSharedState`] behind one lock,
/// which holds it under seal, so that the output need only be sendable.
/// The value of a handle does not say what the state is at a given moment,
/// since the worker changes it from another thread: the contracts below say
/// what holds of every state that a call can meet. What a handle learns for
/// good it keeps for itself: once it has come back from [`wait`](Task::wait)
/// it knows that the task has completed, and once it has taken the value it
/// knows that the value is gone.
#[verifier::reject_recursive_types(O)]
pub struct Task<O> {
    shared_state: Arc<RwLock<Parcel<TaskSharedState<O>>, Promise<O>>>,
    completion: Arc<Latch>,
    waited: bool,
    taken: bool,
}

impl<O> View for Task<O> {
    type V = Promise<O>;

    closed spec fn view(&self) -> Promise<O> {
        self.shared_state.pred()
    }
}

impl<O> Task<O> {
    /// Whether this handle has come back from [`wait`](Task::wait) or has
    /// taken the value.
    ///
    /// The latch that `wait` blocks on opens only under the lock of a task
    /// that has completed, a value is taken only from such a task, and no step
    /// leaves the status `Completed`: see
    /// [`law_completed_after_open`](crate::lifecycle::law_completed_after_open)
    /// and [`law_completed_stays`](crate::lifecycle::law_completed_stays).
    pub closed spec fn known_completed(&self) -> bool {
        self.waited || self.taken
    }

    /// Whether this handle has taken the value.
    ///
    /// No step puts an output back that has been taken: see
    /// [`law_value_once`](crate::lifecycle::law_value_once).
    pub closed spec fn known_taken(&self) -> bool {
        self.taken
    }

    /// Creates a task in the status `Unsubmitted`, which no system has seen.
    pub fn new() -> (task: Self)
        ensures
            task@ == Promise::<O>::unsubmitted(),
            !task.known_completed(),
            !task.known_taken(),
    {
        Self::with_state(TaskSharedState::new(), Ghost(Promise::unsubmitted()))
    }

    /// Puts `state`, the first state of the task, behind a lock of its own,
    /// which from then on holds only states that `promise` admits.
    pub(crate) fn with_state(state: TaskSharedState<O>, Ghost(promise): Ghost<Promise<O>>) -> (task:
        Self)
        requires
            state == promise.first_state(),
        ensures
            task@ == promise,
            !task.known_completed(),
            !task.known_taken(),
    {
        Task {
            shared_state: Arc::new(RwLock::new(Parcel::seal(state), Ghost(promise))),
            completion: Arc::new(Latch::new()),
            waited: false,
            taken: false,
        }
    }

    /// A second handle on the same shared state, for the worker.
    pub(crate) fn share(&self) -> (other: Self)
        ensures
            other == *self,
    {
        Task {
            shared_state: self.shared_state.clone(),
            completion: self.completion.clone(),
            waited: self.waited,
            taken: self.taken,
        }
    }

    /// Records, under the lock, that a worker has started on the task. The
    /// step is taken on a queued task and on no other.
    pub(crate) fn mark_running(&self)
        requires
            self@.submitted,
    {
        let (parcel, handle) = self.shared_state.acquire_write();
        let mut state = parcel.open();
        if state.queued() {
            state.mark_running();
        }
        handle.release_write(Parcel::seal(state));
    }

    /// Stores `value` and the status `Completed` under one acquisition of the
    /// lock and, still under it, lets the waiting callers go. The step is
    /// taken on a running task and on no other.
    pub(crate) fn mark_completed(&self, value: O)
        requires
            self@.submitted,
            (self@.result)(value),
    {
        let (parcel, handle) = self.shared_state.acquire_write();
        let mut state = parcel.open();
        if state.running() {
            state.mark_completed(value);
            self.completion.open(&state);
        }
        handle.release_write(Parcel::seal(state));
    }

    /// Whether this handle knows that the task has completed, and whether it
    /// knows that it has taken the value, of a task that a system has
    /// accepted. The state that the handle holds under the lock tells the
    /// last: only a task that no system has seen is met in `Unsubmitted`.
    fn settled(&self, met: &TaskSharedState<O>) -> (known: (bool, bool))
        requires
            self@.admits(*met),
        ensures
            known.0 == (self@.submitted && self.known_completed()),
            known.1 == (self@.submitted && self.known_taken()),
    {
        let submitted = met.status() != TaskStatus::Unsubmitted;
        (submitted && (self.waited || self.taken), submitted && self.taken)
    }

    /// Reads the status under the lock.
    ///
    /// A task that a system has accepted is never seen in `Unsubmitted` or
    /// `Waiting`, and is seen in `Completed` by a handle that has waited for
    /// it; one that no system has seen is seen in `Unsubmitted` only.
    pub fn status(&self) -> (status: TaskStatus)
        ensures
            self@.admits_status(status),
            self@.submitted && self.known_completed() ==> status == TaskStatus::Completed,
    {
        let (parcel, handle) = self.shared_state.acquire_write();
        let met = parcel.open();
        let status = if self.settled(&met).0 { TaskStatus::Completed } else { met.status() };
        handle.release_write(Parcel::seal(met));
        status
    }

    /// Whether the status, read under the lock, is `Queued`. It is not for a
    /// task that no system has seen, nor for a handle that has waited.
    pub fn queued(&self) -> (yes: bool)
        ensures
            !self@.submitted ==> !yes,
            self.known_completed() ==> !yes,
    {
        let (parcel, handle) = self.shared_state.acquire_write();
        let met = parcel.open();
        let yes = met.queued() && !self.settled(&met).0;
        handle.release_write(Parcel::seal(met));
        yes
    }

    /// Whether the status, read under the lock, is `Running`. It is not for a
    /// task that no system has seen, nor for a handle that has waited.
    pub fn running(&self) -> (yes: bool)
        ensures
            !self@.submitted ==> !yes,
            self.known_completed() ==> !yes,
    {
        let (parcel, handle) = self.shared_state.acquire_write();
        let met = parcel.open();
        let yes = met.running() && !self.settled(&met).0;
        handle.release_write(Parcel::seal(met));
        yes
    }

    /// Whether the status, read under the lock, is `Completed`. It is not for
    /// a task that no system has seen, and it is for a handle that has waited
    /// for a task that a system has accepted.
    pub fn completed(&self) -> (yes: bool)
        ensures
            !self@.submitted ==> !yes,
            self@.submitted && self.known_completed() ==> yes,
    {
        let (parcel, handle) = self.shared_state.acquire_write();
        let met = parcel.open();
        let yes = met.completed() || self.settled(&met).0;
        handle.release_write(Parcel::seal(met));
        yes
    }

    /// Blocks the calling thread until the worker has stored the output and
    /// the status `Completed`, and keeps in the handle that it has.
    ///
    /// The task is one that a system has accepted: on any other the call
    /// would never return.
    pub fn wait(&mut self)
        requires
            old(self)@.submitted,
        ensures
            final(self)@ == old(self)@,
            final(self).known_completed(),
            final(self).known_taken() == old(self).known_taken(),
    {
        self.completion.wait();
        self.waited = true;
    }

    /// Takes the value of the task out, under the lock, and keeps in the
    /// handle that it has.
    ///
    /// A handle that has not taken the value gets what
    /// [`take_value`](TaskSharedState::take_value) returns on the state that
    /// the call meets, and that state depends on how far the worker has come.
    /// Whatever it is, the promise admits it: so a value that comes back is
    /// one that the closure of the task may return, and a task that no system
    /// has seen is not ready. What the handle knows narrows the outcome: after
    /// it has taken the value every call returns `AlreadyTaken`, and once it
    /// knows that the task has completed no call returns `NotReady`.
    pub fn value(&mut self) -> (result: Result<O, GetValueError>)
        ensures
            final(self)@ == old(self)@,
            final(self).known_taken() == (old(self).known_taken() || result is Ok),
            final(self).known_completed() == (old(self).known_completed() || result is Ok),
            result matches Ok(value) ==> old(self)@.submitted && (old(self)@.result)(value),
            !old(self)@.submitted ==> result == Err::<O, GetValueError>(GetValueError::NotReady),
            result == Err::<O, GetValueError>(GetValueError::AlreadyTaken) ==> old(self)@.submitted,
            old(self)@.submitted && old(self).known_taken() ==> result == Err::<O, GetValueError>(
                GetValueError::AlreadyTaken,
            ),
            old(self)@.submitted && old(self).known_completed() ==> result != Err::<
                O,
                GetValueError,
            >(GetValueError::NotReady),
    {
        let (parcel, handle) = self.shared_state.acquire_write();
        let mut state = parcel.open();
        let (completed, taken) = self.settled(&state);
        let result = if taken {
            Err(GetValueError::AlreadyTaken)
        } else {
            let met = state.take_value();
            if completed && state.status() != TaskStatus::Completed {
                Err(GetValueError::AlreadyTaken)
            } else {
                met
            }
        };
        handle.release_write(Parcel::seal(state));
        if result.is_ok() {
            self.taken = true;
        }
        result
    }
}

/// The first state of a task is one that its promise admits.
pub proof fn law_promise_made<O>(promise: Promise<O>)
    ensures
        promise.admits(promise.first_state()),
{
}

/// Every step that the library takes under the lock of a submitted task
/// keeps the promise: it leads from a state that the promise admits to one
/// that it admits. And a value that is taken out of such a state is one that
/// the closure may return.
pub proof fn law_promise_kept<O>(promise: Promise<O>, state: TaskSharedState<O>, event: Event<O>)
    requires
        promise.submitted,
        promise.admits(state),
        promise.admits_step(event),
        state.enabled(event),
    ensures
        promise.admits(state.apply(event)),
        state.take_outcome() matches Ok(value) ==> (promise.result)(value),
{
}

/// A task that no system has seen stays as it was made: the only state that
/// its promise admits is the fresh one, on which an attempt to take the value
/// returns `NotReady` and changes nothing.
pub proof fn law_unsubmitted_is_inert<O>(promise: Promise<O>, state: TaskSharedState<O>)
    requires
        !promise.submitted,
        promise.admits(state),
    ensures
        state == TaskSharedState::<O>::fresh(),
        state.take_outcome() == Err::<O, GetValueError>(GetValueError::NotReady),
        state.apply(Event::Take) == state,
{
}

} // verus!
