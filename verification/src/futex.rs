//! The futex latch: a 32-bit counter whose waiters sleep on the counter
//! itself, through `atomic_wait`, after spinning for a while.

use core::sync::atomic::AtomicU32;
use core::sync::atomic::Ordering;
use vstd::prelude::*;

use crate::atomics::fetch_countdown_u32;
use crate::atomics::spin_until_zero_u32;
use crate::counter::is_release_u32;
use crate::counter::releases;
use crate::counter::wait_outcome_u32;

verus! {

/// `atomic_wait::wait(atomic, value)`: if the atomic holds `value`, sleeps
/// until woken. The crate documents that it may also return spuriously, so
/// nothing is claimed of what holds when it returns.
#[verifier::external_body]
fn futex_wait(atomic: &AtomicU32, value: u32) {
    atomic_wait::wait(atomic, value)
}

/// `atomic_wait::wake_all(atomic)`: wakes every thread sleeping on the
/// atomic. It returns nothing and claims nothing.
#[verifier::external_body]
fn futex_wake_all(atomic: &AtomicU32) {
    atomic_wait::wake_all(atomic)
}

/// A latch is a downward counter which can be used to synchronize threads.
/// The value of the counter is initialized on creation. Threads may block on
/// the latch until the counter is decremented to 0.
///
/// It is a one-shot phenomenon: the counter is not reset after reaching 0.
/// Threads that count down are never made to wait.
#[derive(Debug)]
pub struct Latch {
    count: AtomicU32,
}

impl Latch {
    /// Creates a new latch initialized with the given count.
    pub fn new(count: u32) -> Self {
        Latch { count: AtomicU32::new(count) }
    }

    /// Decrements the count by one, and releases all waiting threads if that
    /// brings it to 0. Does nothing once the counter has reached 0.
    pub fn count_down(&self) {
        self.decrement(1);
    }

    /// Decrements the count by `n`, saturating at 0, and releases all waiting
    /// threads if that brings it to 0. Does nothing if `n` is 0 or the counter
    /// has already reached 0.
    pub fn arrive(&self, n: u32) {
        if n == 0 {
            return;
        }
        self.decrement(n);
    }

    /// The current count, typically for debugging and testing.
    pub fn count(&self) -> u32 {
        self.count.load(Ordering::Acquire)
    }

    /// `Ok(())` if the counter has reached 0, else the current count.
    pub fn try_wait(&self) -> (r: Result<(), u32>)
        ensures
            r matches Err(c) ==> c > 0,
    {
        wait_outcome_u32(self.count.load(Ordering::Acquire))
    }

    /// One round of waiting: spins on the counter, then goes on as
    /// [`wait_after`](Self::wait_after) with the count it read last. Returns
    /// whether the counter was seen at 0.
    ///
    /// A futex sleep may end spuriously, so a full wait repeats rounds until
    /// one returns `true`.
    pub fn wait_step(&self) -> (reached: bool) {
        let observed = self.spin();
        self.wait_after(observed)
    }

    /// The decision of a round, given the count `observed` when spinning
    /// ended: reached when it is 0; otherwise sleeps once on the futex,
    /// unless the counter no longer holds `observed`, and reports not
    /// reached.
    pub fn wait_after(&self, observed: u32) -> (reached: bool)
        ensures
            reached == (observed == 0),
    {
        if observed == 0 {
            true
        } else {
            futex_wait(&self.count, observed);
            false
        }
    }

    /// Lowers the counter by `n` in one atomic update, unless it is 0, and
    /// wakes the sleepers if this update brought it to 0. Returns the count that the
    /// update replaced and whether it released the waiters, or `None` when
    /// the counter was already 0.
    fn decrement(&self, n: u32) -> (outcome: Option<(u32, bool)>)
        ensures
            outcome matches Some((p, released)) ==> p > 0 && released == releases(
                p as nat,
                n as nat,
            ),
    {
        match fetch_countdown_u32(&self.count, n) {
            Ok(p) => {
                let released = is_release_u32(p, n);
                if released {
                    self.done();
                }
                Some((p, released))
            },
            Err(_) => None,
        }
    }

    /// Spins for a bounded number of reads, returning 0 as soon as the
    /// counter is seen at 0, or the last count read otherwise.
    fn spin(&self) -> u32 {
        spin_until_zero_u32(&self.count)
    }

    fn done(&self) {
        futex_wake_all(&self.count);
    }
}

} // verus!
