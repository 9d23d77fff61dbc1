//! The life of a task as a sequence of events on its shared state, and what
//! holds of every such sequence.
//!
//! Every access to a shared state happens under the lock of its task, so
//! whatever the threads do, the state passes through one sequence of events:
//! the system queues the task, a worker starts it, completes it with the
//! value of the closure and lets the waiting callers go, and callers try to
//! take the value at any time.

use vstd::prelude::*;
use crate::state::Event;
use crate::state::TaskSharedState;
use crate::status::GetValueError;
use crate::status::TaskStatus;

verus! {

impl<O> TaskSharedState<O> {
    /// The state after the events, in order.
    pub open spec fn after(self, events: Seq<Event<O>>) -> Self
        decreases events.len(),
    {
        if events.len() == 0 {
            self
        } else {
            self.after(events.drop_last()).apply(events.last())
        }
    }

    /// Whether each of the events can happen in the state that the events
    /// before it lead to.
    pub open spec fn admits_run(self, events: Seq<Event<O>>) -> bool
        decreases events.len(),
    {
        events.len() > 0 ==> self.admits_run(events.drop_last()) && self.after(
            events.drop_last(),
        ).enabled(events.last())
    }
}

/// A single event never moves the status back: its rank after the event is
/// at least its rank before.
pub proof fn law_step_monotone<O>(state: TaskSharedState<O>, event: Event<O>)
    requires
        state.enabled(event),
    ensures
        state.status.rank() <= state.apply(event).status.rank(),
{
}

/// A single event keeps an output from being present before the task has
/// completed.
pub proof fn law_step_keeps_wf<O>(state: TaskSharedState<O>, event: Event<O>)
    requires
        state.wf(),
        state.enabled(event),
    ensures
        state.apply(event).wf(),
{
}

/// Once the status is `Completed` no event changes it, and no event puts an
/// output back that has been taken.
pub proof fn law_completed_is_final<O>(state: TaskSharedState<O>, event: Event<O>)
    requires
        state.status == TaskStatus::Completed,
        state.enabled(event),
    ensures
        state.apply(event).status == TaskStatus::Completed,
        state.output is None ==> state.apply(event).output is None,
{
}

/// A run that can happen can happen up to any point of it.
pub proof fn law_prefix_admitted<O>(state: TaskSharedState<O>, events: Seq<Event<O>>, n: int)
    requires
        state.admits_run(events),
        0 <= n <= events.len(),
    ensures
        state.admits_run(events.take(n)),
    decreases events.len(),
{
    if n == events.len() {
        assert(events.take(n) =~= events);
    } else {
        law_prefix_admitted(state, events.drop_last(), n);
        assert(events.drop_last().take(n) =~= events.take(n));
    }
}

/// Status monotonicity: what a poller sees at a later point of a run never
/// ranks below what it saw at an earlier point.
pub proof fn law_run_monotone<O>(
    state: TaskSharedState<O>,
    events: Seq<Event<O>>,
    earlier: int,
    later: int,
)
    requires
        state.admits_run(events),
        0 <= earlier <= later <= events.len(),
    ensures
        state.after(events.take(earlier)).status.rank() <= state.after(
            events.take(later),
        ).status.rank(),
    decreases later - earlier,
{
    if earlier < later {
        let upto = events.take(later);
        law_prefix_admitted(state, events, later);
        assert(upto.drop_last() =~= events.take(later - 1));
        law_run_monotone(state, events, earlier, later - 1);
        law_step_monotone(state.after(upto.drop_last()), upto.last());
    }
}

/// From a state in which an output is present only after completion, every
/// run leads to such a state.
pub proof fn law_run_keeps_wf<O>(state: TaskSharedState<O>, events: Seq<Event<O>>)
    requires
        state.wf(),
        state.admits_run(events),
    ensures
        state.after(events).wf(),
    decreases events.len(),
{
    if events.len() > 0 {
        law_run_keeps_wf(state, events.drop_last());
        law_step_keeps_wf(state.after(events.drop_last()), events.last());
    }
}

/// Queueing a task that no system has seen gives the status `Queued`, with
/// no output, and from there no run leads to `Unsubmitted` or `Waiting`.
pub proof fn law_never_unsubmitted_again<O>(events: Seq<Event<O>>)
    requires
        TaskSharedState::<O>::fresh().apply(Event::Queue).admits_run(events),
    ensures
        TaskSharedState::<O>::fresh().enabled(Event::Queue),
        TaskSharedState::<O>::fresh().apply(Event::Queue).status == TaskStatus::Queued,
        TaskSharedState::<O>::fresh().apply(Event::Queue).output is None,
        TaskSharedState::<O>::fresh().apply(Event::Queue).after(events).status.is_submitted(),
{
    let queued = TaskSharedState::<O>::fresh().apply(Event::Queue);
    assert(events.take(0) =~= Seq::<Event<O>>::empty());
    assert(events.take(events.len() as int) =~= events);
    law_run_monotone(queued, events, 0, events.len() as int);
}

/// Once a task has completed, every run leaves it completed.
pub proof fn law_completed_stays<O>(state: TaskSharedState<O>, events: Seq<Event<O>>)
    requires
        state.status == TaskStatus::Completed,
        state.admits_run(events),
    ensures
        state.after(events).status == TaskStatus::Completed,
        state.output is None ==> state.after(events).output is None,
    decreases events.len(),
{
    if events.len() > 0 {
        law_completed_stays(state, events.drop_last());
        law_completed_is_final(state.after(events.drop_last()), events.last());
    }
}

/// The first attempt after completion returns the value that the closure
/// returned, and every later attempt, whatever happens in between, returns
/// `AlreadyTaken`.
pub proof fn law_value_once<O>(state: TaskSharedState<O>, value: O, later: Seq<Event<O>>)
    requires
        state.completed_with(value).after_take().admits_run(later),
    ensures
        state.completed_with(value).take_outcome() == Ok::<O, GetValueError>(value),
        state.completed_with(value).after_take().after(later).take_outcome() == Err::<
            O,
            GetValueError,
        >(GetValueError::AlreadyTaken),
{
    law_completed_stays(state.completed_with(value).after_take(), later);
}

/// Before completion an attempt to take the value returns `NotReady` and
/// changes nothing, so it can be repeated at will.
pub proof fn law_not_ready_is_pure<O>(state: TaskSharedState<O>)
    requires
        state.status != TaskStatus::Completed,
    ensures
        state.take_outcome() == Err::<O, GetValueError>(GetValueError::NotReady),
        state.after_take() == state,
{
}

/// Exactly once under contention. The lock puts two racing attempts in some
/// order, with any events that can happen between them. Whatever the state
/// they meet, the two never both succeed; and if the task has completed with
/// its output still there, the first gets the output and the second
/// `AlreadyTaken`.
pub proof fn law_exactly_once<O>(state: TaskSharedState<O>, between: Seq<Event<O>>)
    requires
        state.after_take().admits_run(between),
    ensures
        !(state.take_outcome() is Ok && state.after_take().after(between).take_outcome() is Ok),
        state.status == TaskStatus::Completed && state.output is Some ==> state.take_outcome()
            == Ok::<O, GetValueError>(state.output->0) && state.after_take().after(
            between,
        ).take_outcome() == Err::<O, GetValueError>(GetValueError::AlreadyTaken),
{
    if state.status == TaskStatus::Completed {
        law_completed_stays(state.after_take(), between);
    }
}

/// The latch opens only on a task that has completed, and from then on the
/// task stays completed: whatever is read at a later point of the run, by a
/// caller that has come back from its wait or by any other, is `Completed`.
pub proof fn law_completed_after_open<O>(
    state: TaskSharedState<O>,
    events: Seq<Event<O>>,
    opened: int,
    later: int,
)
    requires
        state.admits_run(events),
        0 <= opened < later <= events.len(),
        events[opened] is Open,
    ensures
        state.after(events.take(opened)).status == TaskStatus::Completed,
        state.after(events.take(later)).status == TaskStatus::Completed,
{
    let upto = events.take(opened + 1);
    law_prefix_admitted(state, events, opened + 1);
    assert(upto.drop_last() =~= events.take(opened));
    assert(upto.last() == events[opened]);
    assert(state.after(events.take(opened)).enabled(events[opened]));
    law_run_monotone(state, events, opened, later);
}

} // verus!
