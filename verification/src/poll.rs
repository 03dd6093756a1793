//! The outcome of evaluating a suspension point once.

use vstd::prelude::*;

verus! {

/// Whether a suspension point has completed.
#[derive(Debug, PartialEq, Eq, Structural)]
pub enum Poll<T> {
    /// The operation completed with this value; the task keeps running.
    Ready(T),
    /// The operation has not completed; the task stays suspended.
    Pending,
}

impl<T> Poll<T> {
    /// True when the operation completed.
    pub fn is_ready(&self) -> (ready: bool)
        ensures
            ready == (*self is Ready),
    {
        match self {
            Poll::Ready(_) => true,
            Poll::Pending => false,
        }
    }

    /// True when the operation has not completed.
    pub fn is_pending(&self) -> (pending: bool)
        ensures
            pending == (*self is Pending),
    {
        match self {
            Poll::Ready(_) => false,
            Poll::Pending => true,
        }
    }
}

} // verus!
