//! The task latch: waiters are asynchronous tasks, registered in a slab of
//! wakers behind a lock and woken all at once when the counter reaches 0.
//!
//! The futures themselves are thin: each poll is one call of
//! [`LatchWait::poll_with`] or of [`LatchWatch::spin_reached`] and
//! [`LatchWatch::settle`], which hold the decisions.

pub mod waiters;

use core::sync::atomic::AtomicUsize;
use core::sync::atomic::Ordering;
use std::sync::Mutex;
use std::task::Waker;
use vstd::prelude::*;

use crate::atomics::fetch_countdown;
use crate::atomics::spin_until_zero;
use crate::counter::is_release;
use crate::counter::releases;
use crate::counter::wait_outcome;
use crate::lock::guarded;
use crate::lock::lock;
use crate::lock::new_mutex;
use crate::timeout::WaitTimeoutResult;

use self::waiters::registers;
use self::waiters::removes;
use self::waiters::Waiters;

verus! {

/// A latch is a downward counter which can be used to coordinate tasks. The
/// value of the counter is initialized on creation. Tasks may suspend on the
/// latch until the counter is decremented to 0.
///
/// It is a one-shot phenomenon: the counter is not reset after reaching 0.
/// Tasks that count down are never made to wait.
#[derive(Debug)]
pub struct Latch {
    count: AtomicUsize,
    lock: Mutex<Waiters>,
}

impl Latch {
    /// Creates a new latch initialized with the given count.
    pub fn new(count: usize) -> Self {
        Latch { count: AtomicUsize::new(count), lock: new_mutex(Waiters::new()) }
    }

    /// Decrements the count by one, and wakes all pending tasks if that
    /// brings it to 0. Does nothing once the counter has reached 0.
    pub fn count_down(&self) {
        self.decrement(1);
    }

    /// Decrements the count by `n`, saturating at 0, and wakes all pending
    /// tasks if that brings it to 0. Does nothing if `n` is 0 or the counter
    /// has already reached 0.
    pub fn arrive(&self, n: usize) {
        if n == 0 {
            return;
        }
        self.decrement(n);
    }

    /// The current count, typically for debugging and testing.
    pub fn count(&self) -> usize {
        self.count.load(Ordering::Acquire)
    }

    /// `Ok(())` if the counter has reached 0, else the current count.
    pub fn try_wait(&self) -> (r: Result<(), usize>)
        ensures
            r matches Err(c) ==> c > 0,
    {
        wait_outcome(self.count.load(Ordering::Acquire))
    }

    /// A future that waits until the counter reaches 0.
    pub fn wait(&self) -> (w: LatchWait<'_>)
        ensures
            w.key() is None,
            *w.latch() == *self,
    {
        LatchWait { id: None, latch: self }
    }

    /// A future that waits until the counter reaches 0 or `timer` completes,
    /// whichever comes first.
    pub fn watch<T>(&self, timer: T) -> (w: LatchWatch<'_, T>)
        ensures
            w.key() is None,
            *w.latch() == *self,
            w.timer() == timer,
    {
        LatchWatch { id: None, latch: self, timer }
    }

    /// Lowers the counter by `n` in one atomic update, unless it is 0, and
    /// wakes the pending tasks if this update brought it to 0. Returns the count that the
    /// update replaced and whether it released the waiters, or `None` when
    /// the counter was already 0.
    fn decrement(&self, n: usize) -> (outcome: Option<(usize, bool)>)
        ensures
            outcome matches Some((p, released)) ==> p > 0 && released == releases(
                p as nat,
                n as nat,
            ),
    {
        match fetch_countdown(&self.count, n) {
            Ok(p) => {
                let released = is_release(p, n);
                if released {
                    self.done();
                }
                Some((p, released))
            },
            Err(_) => None,
        }
    }

    /// Spins for a bounded number of reads; whether the counter was seen
    /// at 0.
    fn spin(&self) -> bool {
        spin_until_zero(&self.count)
    }

    fn done(&self) {
        Waiters::wake_all(&self.lock);
    }
}

/// The future returned by [`Latch::wait`]. It keeps the key of its waker in
/// the latch's slab from one poll to the next.
#[derive(Debug)]
pub struct LatchWait<'a> {
    id: Option<usize>,
    latch: &'a Latch,
}

impl<'a> LatchWait<'a> {
    /// The key of this future's registered waker, if any.
    pub closed spec fn key(&self) -> Option<usize> {
        self.id
    }

    /// The latch this future waits on.
    pub closed spec fn latch(&self) -> &'a Latch {
        self.latch
    }

    /// One poll: `true` (ready) if the counter is seen at 0 while spinning;
    /// otherwise takes the lock of the slab, reads the counter, and goes on
    /// as [`poll_locked`](Self::poll_locked) with what it read.
    ///
    /// Only the latest waker of a future is kept: a later poll replaces the
    /// waker of an earlier one.
    pub fn poll_with(&mut self, waker: &Waker) -> (ready: bool)
        ensures
            final(self).latch() == old(self).latch(),
            !ready ==> final(self).key() is Some,
            ready ==> final(self).key() == old(self).key(),
    {
        if self.latch.spin() {
            return true;
        }
        let latch = self.latch;
        let mut guard = lock(&latch.lock);
        let observed = latch.count.load(Ordering::Acquire);
        self.poll_locked(guarded(&mut guard), observed, waker)
    }

    /// The decision of a poll, holding the slab `waiters` with the count
    /// `observed` read under its lock: ready when the count is 0, leaving
    /// the slab and the key alone; otherwise registers `waker` under this
    /// future's key (a new key if it has none or its key went stale) and is
    /// pending.
    pub fn poll_locked(&mut self, waiters: &mut Waiters, observed: usize, waker: &Waker) -> (ready:
        bool)
        ensures
            ready == (observed == 0),
            final(self).latch() == old(self).latch(),
            ready ==> final(self).key() == old(self).key() && *final(waiters) == *old(waiters),
            !ready ==> (final(self).key() is Some && registers(
                *old(waiters),
                *final(waiters),
                old(self).key(),
                final(self).key()->0,
                *waker,
            )),
    {
        if observed == 0 {
            true
        } else {
            forget_stale_key(waiters, &mut self.id);
            waiters.upsert(&mut self.id, waker);
            false
        }
    }
}

/// The future returned by [`Latch::watch`]. It holds the timer, and keeps
/// the key of its waker in the latch's slab from one poll to the next.
#[derive(Debug)]
pub struct LatchWatch<'a, T> {
    id: Option<usize>,
    latch: &'a Latch,
    timer: T,
}

impl<'a, T> LatchWatch<'a, T> {
    /// The key of this future's registered waker, if any.
    pub closed spec fn key(&self) -> Option<usize> {
        self.id
    }

    /// The latch this future waits on.
    pub closed spec fn latch(&self) -> &'a Latch {
        self.latch
    }

    /// The timer this future races against the latch.
    pub closed spec fn timer(&self) -> T {
        self.timer
    }

    /// The timer, to be polled, reset or cancelled.
    pub fn timer_mut(&mut self) -> (t: &mut T)
        ensures
            *t == old(self).timer(),
            final(self).timer() == *final(t),
            final(self).key() == old(self).key(),
            final(self).latch() == old(self).latch(),
    {
        &mut self.timer
    }

    /// The first half of a poll: whether the counter is seen at 0 while
    /// spinning, in which case the future is ready with `Reached` and the
    /// timer is not polled.
    pub fn spin_reached(&self) -> bool {
        self.latch.spin()
    }

    /// The second half of a poll, after the timer was polled (`Some` with its
    /// output when it completed, `None` while it is pending): takes the lock
    /// of the slab, reads the counter, and goes on as
    /// [`settle_locked`](Self::settle_locked) with what it read.
    pub fn settle<O>(&mut self, timer_out: Option<O>, waker: &Waker) -> (r: Option<
        WaitTimeoutResult<O>,
    >)
        ensures
            final(self).latch() == old(self).latch(),
            final(self).timer() == old(self).timer(),
            r is None ==> timer_out is None && final(self).key() is Some,
            r matches Some(WaitTimeoutResult::TimedOut(t)) ==> (timer_out == Some(t)
                && final(self).key() is None),
            r matches Some(WaitTimeoutResult::Reached) ==> final(self).key() == old(self).key(),
            timer_out is None ==> !(r matches Some(WaitTimeoutResult::TimedOut(_))),
    {
        let latch = self.latch;
        let mut guard = lock(&latch.lock);
        let observed = latch.count.load(Ordering::Acquire);
        self.settle_locked(guarded(&mut guard), observed, timer_out, waker)
    }

    /// The decision of the second half of a poll, holding the slab `waiters`
    /// with the count `observed` read under its lock:
    ///
    /// - if the count is 0, the future is ready with `Reached`, and the slab
    ///   and the key are left alone;
    /// - else if the timer completed, this future's waker is unregistered and
    ///   the future is ready with `TimedOut` and the timer's output;
    /// - else `waker` is registered under this future's key and the future
    ///   is pending (`None`).
    pub fn settle_locked<O>(
        &mut self,
        waiters: &mut Waiters,
        observed: usize,
        timer_out: Option<O>,
        waker: &Waker,
    ) -> (r: Option<WaitTimeoutResult<O>>)
        ensures
            final(self).latch() == old(self).latch(),
            final(self).timer() == old(self).timer(),
            observed == 0 ==> r == Some(WaitTimeoutResult::<O>::Reached) && final(self).key()
                == old(self).key() && *final(waiters) == *old(waiters),
            observed != 0 && timer_out is Some ==> r == Some(
                WaitTimeoutResult::TimedOut(timer_out->0),
            ) && final(self).key() is None && (old(self).key() matches Some(k) ==> removes(
                *old(waiters),
                *final(waiters),
                k,
            )) && (old(self).key() is None ==> *final(waiters) == *old(waiters)),
            observed != 0 && timer_out is None ==> r is None && final(self).key() is Some
                && registers(
                *old(waiters),
                *final(waiters),
                old(self).key(),
                final(self).key()->0,
                *waker,
            ),
    {
        if observed == 0 {
            Some(WaitTimeoutResult::Reached)
        } else {
            match timer_out {
                Some(t) => {
                    waiters.remove(&mut self.id);
                    Some(WaitTimeoutResult::TimedOut(t))
                },
                None => {
                    forget_stale_key(waiters, &mut self.id);
                    waiters.upsert(&mut self.id, waker);
                    None
                },
            }
        }
    }
}

/// Drops a key that no longer names a registered waker, so that the next
/// registration takes a new one. A key goes stale only when the slab was
/// emptied, which happens once the counter has reached 0, after which no
/// future registers again; the check keeps a registration from ever
/// reaching an empty slot.
fn forget_stale_key(waiters: &Waiters, id: &mut Option<usize>)
    ensures
        *final(id) == (if *old(id) is Some && waiters@.contains_key((*old(id))->0) {
            *old(id)
        } else {
            None
        }),
{
    if let Some(k) = *id {
        if !waiters.contains(k) {
            *id = None;
        }
    }
}

} // verus!
