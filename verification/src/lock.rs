//! The std locks that the latches use, with a poisoned lock taken over as
//! if it were not: the latches keep no invariant that a panic while holding
//! the lock could break.

use std::sync::Condvar;
use std::sync::Mutex;
use std::sync::MutexGuard;
use std::time::Duration;
use vstd::prelude::*;

verus! {

/// `Mutex::new(t)`: a lock around `t`. The lock is opaque, so nothing is
/// claimed of what it holds.
#[verifier::external_body]
pub(crate) fn new_mutex<T>(t: T) -> Mutex<T> {
    Mutex::new(t)
}

/// `Mutex::lock`: blocks until the lock is held and returns its guard. A
/// poisoned lock is taken over through `PoisonError::into_inner`, which std
/// documents as handing out the guard all the same.
///
/// std documents that the call does not return when the calling thread
/// already holds the lock. No clause can speak of which thread holds a lock,
/// so that is left to the callers: in this crate a guard never leaves the
/// function that took it, and no function takes a lock of the latch while
/// it holds one.
#[verifier::external_body]
pub(crate) fn lock<T>(m: &Mutex<T>) -> MutexGuard<'_, T> {
    match m.lock() {
        Ok(g) => g,
        Err(e) => e.into_inner(),
    }
}

/// `<MutexGuard<T> as DerefMut>::deref_mut`: the value that the held lock
/// protects. Nothing is claimed of it.
#[verifier::external_body]
pub(crate) fn guarded<'a, 'b, T>(g: &'a mut MutexGuard<'b, T>) -> &'a mut T {
    &mut **g
}

/// `Condvar::new()`: a condition variable with no waiters.
#[verifier::external_body]
fn new_condvar() -> Condvar {
    Condvar::new()
}

/// `Condvar::notify_all`: wakes every thread blocked on the condition
/// variable. It returns nothing and claims nothing.
#[verifier::external_body]
fn notify_all_on(c: &Condvar) {
    c.notify_all()
}

/// A condition variable without a condition of its own: its lock protects
/// nothing, and serves only to order a notification after the checks of
/// the waiters that are about to block.
#[derive(Debug)]
pub(crate) struct EmptyCondvar {
    lock: Mutex<()>,
    cvar: Condvar,
}

impl EmptyCondvar {
    pub(crate) fn new() -> Self {
        EmptyCondvar { lock: new_mutex(()), cvar: new_condvar() }
    }

    /// Wakes every waiting thread.
    ///
    /// The lock is taken and released first: a waiter that has checked the
    /// condition under the lock but has not yet blocked still holds it, so
    /// the notification cannot slip in between its check and its wait.
    pub(crate) fn notify_all(&self) {
        {
            let _g = lock(&self.lock);
        }
        notify_all_on(&self.cvar);
    }

    /// Takes the lock, before checking the condition.
    pub(crate) fn monitor(&self) -> MutexGuard<'_, ()> {
        lock(&self.lock)
    }

    /// `Condvar::wait`: releases the lock of `g`, blocks until notified (std
    /// documents that it may also wake spuriously), and takes the lock again,
    /// through a poisoned lock too. Nothing is claimed of what holds then.
    ///
    /// std documents a panic when one condition variable is used with two
    /// mutexes; `g` must be a guard of this condvar's own lock, taken by
    /// [`monitor`](Self::monitor). The latch's rounds are the only callers and
    /// pass the guard they just took; no guard is handed out of the crate.
    #[verifier::external_body]
    pub(crate) fn wait<'a>(&self, g: MutexGuard<'a, ()>) -> MutexGuard<'a, ()> {
        match self.cvar.wait(g) {
            Ok(g) => g,
            Err(e) => e.into_inner(),
        }
    }

    /// `Condvar::wait_timeout`: as [`wait`](Self::wait), with the same demand on
    /// `g`, but blocks for at most `dur`. Whether it timed out is not kept:
    /// callers read the clock again.
    #[verifier::external_body]
    pub(crate) fn wait_timeout<'a>(&self, g: MutexGuard<'a, ()>, dur: Duration) -> MutexGuard<
        'a,
        (),
    > {
        match self.cvar.wait_timeout(g, dur) {
            Ok(g) => g.0,
            Err(e) => e.into_inner().0,
        }
    }
}

} // verus!
