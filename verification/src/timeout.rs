//! The answer of a wait that can give up.

use vstd::prelude::*;

verus! {

/// Whether a timed wait on a latch returned because the count reached 0 or
/// because it timed out.
#[derive(Debug, PartialEq, Eq, Copy, Clone)]
pub enum WaitTimeoutResult<T> {
    /// The current count has reached 0.
    Reached,
    /// The wait has timed out before the current count reached 0. It holds
    /// what the timer returned.
    TimedOut(T),
}

impl<T> WaitTimeoutResult<T> {
    /// Whether the count was known to have reached 0 after the wait.
    pub fn is_reached(&self) -> (b: bool)
        ensures
            b == (*self is Reached),
    {
        match self {
            WaitTimeoutResult::Reached => true,
            WaitTimeoutResult::TimedOut(_) => false,
        }
    }

    /// Whether the wait was known to have timed out.
    pub fn is_timed_out(&self) -> (b: bool)
        ensures
            b == (*self is TimedOut),
    {
        match self {
            WaitTimeoutResult::Reached => false,
            WaitTimeoutResult::TimedOut(_) => true,
        }
    }

    /// `Reached` as `None` and `TimedOut(t)` as `Some(t)`.
    pub fn timed_out(self) -> (r: Option<T>)
        ensures
            r == (match self {
                WaitTimeoutResult::Reached => None,
                WaitTimeoutResult::TimedOut(t) => Some(t),
            }),
    {
        match self {
            WaitTimeoutResult::Reached => None,
            WaitTimeoutResult::TimedOut(t) => Some(t),
        }
    }

    /// `Reached` as `Ok(v)` and `TimedOut(t)` as `Err(t)`.
    pub fn ok<V>(self, v: V) -> (r: Result<V, T>)
        ensures
            r == (match self {
                WaitTimeoutResult::Reached => Ok(v),
                WaitTimeoutResult::TimedOut(t) => Err(t),
            }),
    {
        match self {
            WaitTimeoutResult::Reached => Ok(v),
            WaitTimeoutResult::TimedOut(e) => Err(e),
        }
    }

    /// `Reached` as `Ok(v())` and `TimedOut(t)` as `Err(t)`; `v` is called
    /// only when the count was reached.
    pub fn ok_by<V, F: FnOnce() -> V>(self, v: F) -> (r: Result<V, T>)
        requires
            self is Reached ==> v.requires(()),
        ensures
            self is Reached ==> (r matches Ok(x) && v.ensures((), x)),
            self matches WaitTimeoutResult::TimedOut(t) ==> r == Err::<V, T>(t),
    {
        match self {
            WaitTimeoutResult::Reached => Ok(v()),
            WaitTimeoutResult::TimedOut(e) => Err(e),
        }
    }
}

/// A wait either reached the count or timed out, never both, and
/// `timed_out()` and `ok(v)` carry the timer's result exactly when it timed
/// out.
pub proof fn lemma_one_outcome<T, V>(r: WaitTimeoutResult<T>, v: V)
    ensures
        (r is Reached) != (r is TimedOut),
        (match r {
            WaitTimeoutResult::Reached => None,
            WaitTimeoutResult::TimedOut(t) => Some(t),
        }) is None <==> r is Reached,
        (match r {
            WaitTimeoutResult::Reached => Ok(v),
            WaitTimeoutResult::TimedOut(t) => Err(t),
        }) is Ok <==> r is Reached,
{
}

} // verus!
