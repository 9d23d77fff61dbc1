//! A value under seal.
//!
//! A parcel holds one value that only the owner of the parcel can reach, so
//! a reference to a parcel that is shared between threads shares nothing of
//! the value. This lets the lock of a task hold an output that can be sent
//! to another thread and nothing more.
//!
//! The seal is a `std::sync::Mutex` that is never locked. What the library
//! takes on trust of it stands in the two functions below and is not proved.

use vstd::prelude::*;
use std::sync::Mutex;

verus! {

/// `std::sync::Mutex`, carried through as an opaque value.
#[verifier::external_type_specification]
#[verifier::external_body]
#[verifier::reject_recursive_types(T)]
pub struct ExMutex<T: ?Sized>(Mutex<T>);

/// One value under seal. Its view is the value.
#[verifier::reject_recursive_types(T)]
pub struct Parcel<T> {
    cell: Mutex<T>,
    content: Ghost<T>,
}

impl<T> View for Parcel<T> {
    type V = T;

    closed spec fn view(&self) -> T {
        self.content@
    }
}

impl<T> Parcel<T> {
    /// `Mutex::new` creates a mutex that holds `value`. The parcel holds
    /// that value.
    #[verifier::external_body]
    pub(crate) fn seal(value: T) -> (parcel: Self)
        ensures
            parcel@ == value,
    {
        Parcel { content: Ghost(value), cell: Mutex::new(value) }
    }

    /// `Mutex::into_inner` consumes the mutex and returns the value that it
    /// holds: as `Ok` from a sound mutex, inside the error from a poisoned
    /// one. Either way the value of the parcel comes back.
    #[verifier::external_body]
    pub(crate) fn open(self) -> (value: T)
        ensures
            value == self@,
    {
        match self.cell.into_inner() {
            Ok(value) => value,
            Err(poisoned) => poisoned.into_inner(),
        }
    }
}

} // verus!
