//! What the library takes on trust of the `threadpool` crate.
//!
//! Nothing here is proved: each contract restates what the source of the
//! crate shows.

use vstd::prelude::*;
use threadpool::ThreadPool;

verus! {

/// `threadpool::ThreadPool`, carried through as an opaque value.
#[verifier::external_type_specification]
#[verifier::external_body]
pub struct ExThreadPool(ThreadPool);

/// The number of worker threads that a pool was made with.
pub uninterp spec fn pool_workers(pool: ThreadPool) -> nat;

/// `ThreadPool::new` asserts that `num_threads` is positive, spawns that many
/// worker threads and records the number as the most jobs that the pool runs
/// at a time.
pub assume_specification[ ThreadPool::new ](num_threads: usize) -> (pool: ThreadPool)
    requires
        num_threads > 0,
    ensures
        pool_workers(pool) == num_threads,
;

/// `ThreadPool::execute` sends `job` to the queue that the workers read from
/// and returns without waiting for it. A worker later calls `job` once, with
/// no arguments, which `job` has to accept. The queue lives as long as the
/// pool, so the send does not fail. The call returns nothing.
pub assume_specification<F>[ ThreadPool::execute ](pool: &ThreadPool, job: F) where
    F: FnOnce() + Send + 'static,

    requires
        job.requires(()),
;

} // verus!
