use vstd::prelude::*;
use crate::poll::Async;

verus! {

/// Error of a wait with a deadline: either the deadline passed, or the
/// awaited operation failed with its own error.
#[derive(Debug)]
pub struct TimeoutError<T> {
    /// `None` for a timeout.
    inner: Option<T>,
}

impl<T> TimeoutError<T> {
    /// The operation's own error; `None` for a timeout.
    pub closed spec fn inner(&self) -> Option<T> {
        self.inner
    }

    /// Wraps an error of the awaited operation.
    pub fn new(inner: T) -> (r: TimeoutError<T>)
        ensures
            r.inner() == Some(inner),
    {
        TimeoutError { inner: Some(inner) }
    }

    /// The error of a wait whose deadline passed.
    pub fn timeout() -> (r: TimeoutError<T>)
        ensures
            r.inner() == None::<T>,
    {
        TimeoutError { inner: None }
    }

    pub fn is_timeout(&self) -> (r: bool)
        ensures
            r == (self.inner() is None),
    {
        self.inner.is_none()
    }

    /// Consumes `self`, returning the operation's error, or `None` for a
    /// timeout.
    pub fn into_inner(self) -> (r: Option<T>)
        ensures
            r == self.inner(),
    {
        self.inner
    }
}

/// What a blocking wait does after one poll of the awaited operation.
#[derive(Debug)]
pub enum WaitStep<T, E> {
    /// Stop with this result.
    Done(Result<T, E>),
    /// Park the thread, for at most this long if a duration is given.
    Park(Option<u64>),
}

/// The step of a wait without deadline, after a poll returned `res`.
pub open spec fn wait_step_spec<T, E>(res: Result<Async<T>, E>) -> WaitStep<T, E> {
    match res {
        Ok(Async::Ready(v)) => WaitStep::Done(Ok(v)),
        Ok(Async::NotReady) => WaitStep::Park(None),
        Err(e) => WaitStep::Done(Err(e)),
    }
}

/// Whether `r` is the step of a wait with deadline `until`, after a poll at
/// instant `now` returned `res`: a value or an error of the operation ends
/// the wait; a pending operation parks for the time left, or ends in a
/// timeout.
pub open spec fn is_wait_timeout_step<T, E>(
    res: Result<Async<T>, E>,
    now: u64,
    until: u64,
    r: WaitStep<T, TimeoutError<E>>,
) -> bool {
    match res {
        Ok(Async::Ready(v)) => r matches WaitStep::Done(Ok(x)) && x == v,
        Ok(Async::NotReady) => if now >= until {
            r matches WaitStep::Done(Err(x)) && x.inner() is None
        } else {
            r matches WaitStep::Park(Some(d)) && d == until - now
        },
        Err(e) => r matches WaitStep::Done(Err(x)) && x.inner() == Some(e),
    }
}

/// One turn of a blocking wait: the caller clears its parker, then polls,
/// hands the result here and parks while told to.
pub fn wait_step<T, E>(res: Result<Async<T>, E>) -> (r: WaitStep<T, E>)
    ensures
        r == wait_step_spec(res),
{
    match res {
        Ok(Async::Ready(v)) => WaitStep::Done(Ok(v)),
        Ok(Async::NotReady) => WaitStep::Park(None),
        Err(e) => WaitStep::Done(Err(e)),
    }
}

/// One turn of a blocking wait with deadline `until`, after a poll at
/// instant `now` returned `res`.
pub fn wait_timeout_step<T, E>(res: Result<Async<T>, E>, now: u64, until: u64) -> (r: WaitStep<
    T,
    TimeoutError<E>,
>)
    ensures
        is_wait_timeout_step(res, now, until, r),
{
    match res {
        Ok(Async::Ready(v)) => WaitStep::Done(Ok(v)),
        Ok(Async::NotReady) => if now >= until {
            WaitStep::Done(Err(TimeoutError::timeout()))
        } else {
            WaitStep::Park(Some(until - now))
        },
        Err(e) => WaitStep::Done(Err(TimeoutError::new(e))),
    }
}

/// A wait on an operation that never becomes ready parks for exactly the
/// time left before its deadline, then ends in a timeout; an error of the
/// operation itself ends the wait with that error, which is no timeout.
pub proof fn lemma_timeout_is_distinct<T, E>(
    now: u64,
    until: u64,
    e: E,
    pending: WaitStep<T, TimeoutError<E>>,
    failed: WaitStep<T, TimeoutError<E>>,
)
    requires
        is_wait_timeout_step(Ok::<Async<T>, E>(Async::NotReady), now, until, pending),
        is_wait_timeout_step(Err::<Async<T>, E>(e), now, until, failed),
    ensures
        now < until ==> pending == WaitStep::<T, TimeoutError<E>>::Park(Some((until - now) as u64)),
        now >= until ==> (pending matches WaitStep::Done(Err(x)) && x.inner() is None),
        failed matches WaitStep::Done(Err(x)) && x.inner() == Some(e),
{
}

} // verus!
