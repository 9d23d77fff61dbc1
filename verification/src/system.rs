//! The system that accepts work and hands out task handles.

use vstd::prelude::*;
use threadpool::ThreadPool;
use crate::pool::pool_workers;
use crate::state::TaskSharedState;
use crate::task::Promise;
use crate::task::Task;

verus! {

/// A fixed pool of worker threads that runs closures as tasks.
pub struct TaskSystem {
    pool: ThreadPool,
}

impl TaskSystem {
    /// The number of worker threads of the system.
    pub closed spec fn n_workers(&self) -> nat {
        pool_workers(self.pool)
    }

    /// Creates a system with exactly `n_workers` worker threads.
    pub fn new(n_workers: usize) -> (system: Self)
        requires
            n_workers > 0,
        ensures
            system.n_workers() == n_workers,
    {
        TaskSystem { pool: ThreadPool::new(n_workers) }
    }

    /// Accepts `fun` as a task and returns its handle without waiting.
    ///
    /// The shared state is `Queued` before the pool sees the job, so no reader
    /// of the handle meets `Unsubmitted`. The job, once a worker picks it up,
    /// marks the task `Running`, calls `fun` once, and stores what it returned
    /// together with the status `Completed`.
    ///
    /// The handle promises what `fun` promises: a value that is later taken
    /// out of the task is one that `fun` may return. The handle has neither
    /// waited nor taken the value.
    pub fn run<F, O>(&mut self, fun: F) -> (task: Task<O>) where
        F: FnOnce() -> O + Send + 'static,
        O: Send + 'static,

        requires
            fun.requires(()),
        ensures
            *final(self) == *old(self),
            task@.submitted,
            !task.known_completed(),
            !task.known_taken(),
            forall|value: O|
                #![trigger (task@.result)(value)]
                #![trigger fun.ensures((), value)]
                (task@.result)(value) <==> fun.ensures((), value),
    {
        let ghost promise = Promise { submitted: true, result: |value: O| fun.ensures((), value) };
        let mut state = TaskSharedState::new();
        state.mark_queued();
        let task = Task::with_state(state, Ghost(promise));
        let worker = task.share();
        let job = move || {
            worker.mark_running();
            let output = fun();
            worker.mark_completed(output);
        };
        self.pool.execute(job);
        task
    }
}

} // verus!
