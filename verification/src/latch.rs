//! The latch that callers wait on: closed when a task is made, opened by the
//! worker once the task has completed, and open ever after.
//!
//! The latch is a `std::sync::Once`. What the library takes on trust of it
//! stands at the top of this file and is not proved. The contracts claim
//! nothing of a cell's state, since a cell changes under a shared reference.

use vstd::prelude::*;
use std::sync::Once;
use crate::state::Event;
use crate::state::TaskSharedState;

verus! {

/// `std::sync::Once`, carried through as an opaque value.
#[verifier::external_type_specification]
#[verifier::external_body]
pub struct ExOnce(Once);

/// `Once::new` creates a cell on which no call has completed. Nothing is
/// claimed of the value.
pub assume_specification[ Once::new ]() -> (once: Once);

/// `Once::wait_force` blocks the calling thread until a call of
/// `call_once` or `call_once_force` on the cell has completed. It takes a
/// poisoned cell like any other. Nothing is claimed of the cell afterwards.
pub assume_specification[ Once::wait_force ](once: &Once);

/// `Once::call_once_force` with a closure that does nothing: the call returns
/// once the cell counts as completed, and takes a poisoned cell like any
/// other. The closure neither panics nor touches the cell, so the call does
/// not wait for itself. Nothing is claimed of the cell afterwards.
#[verifier::external_body]
fn complete(once: &Once) {
    once.call_once_force(|_| {});
}

/// A latch that is opened once and never closed again.
///
/// Its cell is private to this file, so it is completed by [`Latch::open`]
/// alone, with the empty closure.
pub(crate) struct Latch {
    once: Once,
}

impl Latch {
    /// Creates a closed latch.
    pub(crate) fn new() -> (latch: Self) {
        Latch { once: Once::new() }
    }

    /// Opens the latch and lets the waiting callers go.
    ///
    /// The caller shows the state that it holds under the lock of the task:
    /// the latch opens only on a task that has completed.
    pub(crate) fn open<O>(&self, state: &TaskSharedState<O>)
        requires
            state.enabled(Event::Open),
    {
        complete(&self.once);
    }

    /// Blocks the calling thread until the latch is open.
    pub(crate) fn wait(&self) {
        self.once.wait_force();
    }
}

} // verus!
