use vstd::prelude::*;

verus! {

/// Outcome of a poll-style operation that did not fail.
#[derive(Debug, PartialEq, Eq)]
pub enum Async<T> {
    /// The operation completed with this value.
    Ready(T),
    /// The operation cannot progress yet; the caller's task was registered.
    NotReady,
}

impl<T> Async<T> {
    pub fn is_ready(&self) -> (r: bool)
        ensures
            r == (self is Ready),
    {
        match self {
            Async::Ready(_) => true,
            Async::NotReady => false,
        }
    }

    pub fn is_not_ready(&self) -> (r: bool)
        ensures
            r == (self is NotReady),
    {
        match self {
            Async::Ready(_) => false,
            Async::NotReady => true,
        }
    }
}

} // verus!
