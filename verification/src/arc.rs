//! The thread-shared handle of the independent-counter scheme under its
//! short name.

use crate::rc::FastRc;
use crate::SharedRc;
use vstd::prelude::*;

verus! {

/// A thread-shared handle with one atomic counter.
pub type AtomicRc<T> = SharedRc<T>;

impl<T> AtomicRc<T> {
    /// Tries to turn the handle into a thread-confined one on the same
    /// record, which succeeds for the only handle; otherwise the handle comes
    /// back as it was.
    pub fn try_into_rc(self) -> (converted: Result<FastRc<T>, Self>)
        ensures
            match converted {
                Ok(other) => other.record() == self.record() && other@ == self@,
                Err(same) => same == self,
            },
    {
        self.try_into_other()
    }

    /// Turns the handle into a thread-confined one: on the same record for
    /// the only handle, else on a new record that holds a clone of the payload.
    pub fn into_rc(self) -> (converted: FastRc<T>) where T: Clone
        ensures
            cloned(self@, converted@),
    {
        self.into_other()
    }
}

} // verus!
