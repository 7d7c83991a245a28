//! The sync latch: waiting threads block on a condition variable after
//! spinning for a while, and can give up after a timeout.
//!
//! A blocking wait repeats until the counter is seen at 0, which no bound
//! limits; it is run by the caller as a loop over the rounds that this
//! module provides: [`Latch::wait_start`], then [`Latch::wait_step`] until it
//! returns `true`; and [`Latch::wait_timeout_start`], then
//! [`Latch::wait_timeout_step`] until it returns `Some`. No lock of the latch
//! is handed out: each round takes it and releases it.

use core::sync::atomic::AtomicUsize;
use core::sync::atomic::Ordering;
use std::sync::MutexGuard;
use std::time::Duration;
use std::time::Instant;
use vstd::prelude::*;

use crate::atomics::fetch_countdown;
use crate::atomics::spin_until_zero;
use crate::counter::is_release;
use crate::counter::releases;
use crate::counter::wait_outcome;
use crate::lock::EmptyCondvar;
use crate::timeout::WaitTimeoutResult;

verus! {

/// `Instant::now()`: the current reading of the monotonic clock. It depends
/// on the time, so nothing is claimed of it.
#[verifier::external_body]
fn now() -> Instant {
    Instant::now()
}

/// `Instant::elapsed`: the time since `start`. It depends on the time, so
/// nothing is claimed of it.
#[verifier::external_body]
fn elapsed(start: &Instant) -> Duration {
    start.elapsed()
}

/// What `Duration::checked_sub(a, b)` answers: `a - b`, or `None` when `b`
/// is longer than `a`. It depends on the two durations alone.
pub uninterp spec fn duration_minus(a: Duration, b: Duration) -> Option<Duration>;

/// `Duration::checked_sub`: the contract names its answer
/// [`duration_minus`] of the two durations and claims nothing more of it.
#[verifier::external_body]
fn checked_sub(a: Duration, b: Duration) -> (r: Option<Duration>)
    ensures
        r == duration_minus(a, b),
{
    a.checked_sub(b)
}

/// What a round of a timed wait does next.
#[derive(Debug)]
pub enum TimedRound {
    /// The wait is over with this answer.
    Finished(WaitTimeoutResult<()>),
    /// The wait blocks for at most this long, then goes on.
    Block(Duration),
}

/// The decision of a round of a timed wait, from the count `observed` under
/// the lock and the time `left` before the timeout (`None` once it has
/// passed): `Reached` when the count is 0, else `TimedOut(())` when no time
/// is left, else block for the time left.
pub open spec fn timed_answer(observed: usize, left: Option<Duration>) -> TimedRound {
    if observed == 0 {
        TimedRound::Finished(WaitTimeoutResult::Reached)
    } else {
        match left {
            Some(d) => TimedRound::Block(d),
            None => TimedRound::Finished(WaitTimeoutResult::TimedOut(())),
        }
    }
}

/// What a round returns for a decision: the answer once the wait is over,
/// `None` when it blocks.
pub open spec fn round_result(d: TimedRound) -> Option<WaitTimeoutResult<()>> {
    match d {
        TimedRound::Finished(r) => Some(r),
        TimedRound::Block(_) => None,
    }
}

/// [`timed_answer`], computed.
pub fn timed_round(observed: usize, left: Option<Duration>) -> (r: TimedRound)
    ensures
        r == timed_answer(observed, left),
{
    if observed == 0 {
        TimedRound::Finished(WaitTimeoutResult::Reached)
    } else {
        match left {
            Some(d) => TimedRound::Block(d),
            None => TimedRound::Finished(WaitTimeoutResult::TimedOut(())),
        }
    }
}

/// The decision of a round of a timed wait of `dur`, from the count
/// `observed` under the lock and the time `spent` since the wait started:
/// the time left is `dur - spent`, through `Duration::checked_sub`.
pub fn timed_decision(observed: usize, dur: Duration, spent: Duration) -> (r: TimedRound)
    ensures
        r == timed_answer(observed, duration_minus(dur, spent)),
{
    timed_round(observed, checked_sub(dur, spent))
}

/// A latch is a downward counter which can be used to synchronize threads.
/// The value of the counter is initialized on creation. Threads may block on
/// the latch until the counter is decremented to 0.
///
/// It is a one-shot phenomenon: the counter is not reset after reaching 0.
/// Threads that count down are never made to wait.
#[derive(Debug)]
pub struct Latch {
    count: AtomicUsize,
    cvar: EmptyCondvar,
}

impl Latch {
    /// Creates a new latch initialized with the given count.
    pub fn new(count: usize) -> Self {
        Latch { count: AtomicUsize::new(count), cvar: EmptyCondvar::new() }
    }

    /// Decrements the count by one, and releases all waiting threads if that
    /// brings it to 0. Does nothing once the counter has reached 0.
    pub fn count_down(&self) {
        self.decrement(1);
    }

    /// Decrements the count by `n`, saturating at 0, and releases all waiting
    /// threads if that brings it to 0. Does nothing if `n` is 0 or the counter
    /// has already reached 0.
    pub fn arrive(&self, n: usize) {
        if n == 0 {
            return;
        }
        self.decrement(n);
    }

    /// The current count, typically for debugging and testing.
    pub fn count(&self) -> usize {
        self.count.load(Ordering::Acquire)
    }

    /// `Ok(())` if the counter has reached 0, else the current count.
    pub fn try_wait(&self) -> (r: Result<(), usize>)
        ensures
            r matches Err(c) ==> c > 0,
    {
        wait_outcome(self.count.load(Ordering::Acquire))
    }

    /// Begins a blocking wait: spins on the counter and returns whether it
    /// was seen at 0. When it was not, the wait goes on with rounds of
    /// [`wait_step`](Self::wait_step).
    pub fn wait_start(&self) -> (reached: bool) {
        self.spin()
    }

    /// One round of a blocking wait: takes the lock, reads the counter, and
    /// goes on as [`wait_locked`](Self::wait_locked) with what it read.
    /// Returns whether the counter was seen at 0. The lock is released when
    /// the round ends, so that no lock of the latch outlives a call.
    pub fn wait_step(&self) -> (reached: bool) {
        let guard = self.cvar.monitor();
        let observed = self.count.load(Ordering::Acquire);
        self.wait_locked(guard, observed)
    }

    /// The decision of a round, holding the lock with the count `observed`
    /// read under it: reached when it is 0; otherwise blocks until notified
    /// (or spuriously) and reports not reached. The counter is read before
    /// each block under the lock, so a notification cannot slip in between.
    fn wait_locked(&self, guard: MutexGuard<'_, ()>, observed: usize) -> (reached: bool)
        ensures
            reached == (observed == 0),
    {
        if observed == 0 {
            true
        } else {
            let _guard = self.cvar.wait(guard);
            false
        }
    }

    /// Begins a blocking wait with a timeout: spins, and returns `None` if the
    /// counter was seen at 0, or else the time the wait started, from which
    /// the rounds of [`wait_timeout_step`](Self::wait_timeout_step) measure
    /// the timeout.
    pub fn wait_timeout_start(&self) -> Option<Instant> {
        if self.spin() {
            None
        } else {
            Some(now())
        }
    }

    /// One round of a blocking wait with a timeout of `dur` since `start`:
    /// takes the lock, reads the counter and the time spent since `start`,
    /// and goes on as [`timed_decision`] decides: `Some(Reached)`,
    /// `Some(TimedOut(()))`, or else blocks until notified or for the time
    /// left and returns `None`.
    ///
    /// The count and the time are read here and depend on other threads and
    /// on the clock; whatever they were, the answer is the decision for them.
    pub fn wait_timeout_step(&self, start: &Instant, dur: Duration) -> (r: Option<
        WaitTimeoutResult<()>,
    >)
        ensures
            exists|observed: usize, spent: Duration|
                #[trigger] round_result(timed_answer(observed, duration_minus(dur, spent))) == r,
            r == Some(WaitTimeoutResult::TimedOut(())) ==> exists|spent: Duration|
                #[trigger] duration_minus(dur, spent) is None,
            r is None ==> exists|spent: Duration| #[trigger] duration_minus(dur, spent) is Some,
    {
        let guard = self.cvar.monitor();
        let observed = self.count.load(Ordering::Acquire);
        let spent = elapsed(start);
        let decision = timed_decision(observed, dur, spent);
        proof {
            assert(round_result(timed_answer(observed, duration_minus(dur, spent))) == round_result(
                decision,
            ));
        }
        match decision {
            TimedRound::Finished(r) => Some(r),
            TimedRound::Block(d) => {
                let _guard = self.cvar.wait_timeout(guard, d);
                None
            },
        }
    }

    /// Lowers the counter by `n` in one atomic update, unless it is 0, and
    /// notifies the waiting threads if this update brought it to 0. Returns the count that the
    /// update replaced and whether it released the waiters, or `None` when
    /// the counter was already 0.
    fn decrement(&self, n: usize) -> (outcome: Option<(usize, bool)>)
        ensures
            outcome matches Some((p, released)) ==> p > 0 && released == releases(
                p as nat,
                n as nat,
            ),
    {
        match fetch_countdown(&self.count, n) {
            Ok(p) => {
                let released = is_release(p, n);
                if released {
                    self.done();
                }
                Some((p, released))
            },
            Err(_) => None,
        }
    }

    /// Spins for a bounded number of reads; whether the counter was seen
    /// at 0.
    fn spin(&self) -> bool {
        spin_until_zero(&self.count)
    }

    fn done(&self) {
        self.cvar.notify_all();
    }
}

} // verus!
