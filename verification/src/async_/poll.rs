//! The result of polling a suspending operation.

use vstd::prelude::*;

verus! {

/// Whether an operation has a result or its caller has to suspend.
#[derive(Debug, PartialEq, Eq)]
pub enum Poll<T> {
    /// The operation is done, with this result.
    Ready(T),
    /// The operation is not done. The identifier that the poll was given is
    /// stored, and the task it names is woken when polling again is worth
    /// it.
    Pending,
}

impl<T> Poll<T> {
    /// Whether the operation is done.
    pub fn is_ready(&self) -> (r: bool)
        ensures
            r == (*self is Ready),
    {
        match self {
            Poll::Ready(_) => true,
            Poll::Pending => false,
        }
    }

    /// Whether the caller has to suspend.
    pub fn is_pending(&self) -> (r: bool)
        ensures
            r == (*self is Pending),
    {
        match self {
            Poll::Ready(_) => false,
            Poll::Pending => true,
        }
    }
}

} // verus!
