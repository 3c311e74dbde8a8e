//! The thread-confined handle of the independent-counter scheme under its
//! short name.

use crate::arc::AtomicRc;
use crate::LocalRc;
use vstd::prelude::*;

verus! {

/// A thread-confined handle with one plain counter.
pub type FastRc<T> = LocalRc<T>;

impl<T> FastRc<T> {
    /// Tries to turn the handle into a thread-shared one on the same record,
    /// which succeeds for the only handle; otherwise the handle comes back
    /// as it was.
    pub fn try_into_arc(self) -> (converted: Result<AtomicRc<T>, Self>)
        ensures
            match converted {
                Ok(other) => other.record() == self.record() && other@ == self@,
                Err(same) => same == self,
            },
    {
        self.try_into_other()
    }

    /// Turns the handle into a thread-shared one: on the same record for the
    /// only handle, else on a new record that holds a clone of the payload.
    pub fn into_arc(self) -> (converted: AtomicRc<T>) where T: Clone
        ensures
            cloned(self@, converted@),
    {
        self.into_other()
    }
}

} // verus!
