//! Operations on the atomic counters of the latches. The counters are shared
//! between threads, so no contract here speaks of the values they hold: the
//! std operations that vstd does not specify claim only what std documents
//! for every outcome.

use core::sync::atomic::AtomicU32;
use core::sync::atomic::AtomicUsize;
use core::sync::atomic::Ordering;
use vstd::prelude::*;

use crate::counter::countdown;
use crate::counter::countdown_u32;

verus! {

/// `AtomicUsize::fetch_update(Release, Relaxed, f)` with `f` the latch
/// transition [`countdown`] for `n`.
///
/// std documents that it returns `Ok(previous)` when `f` returned `Some` for
/// the value it replaced, and `Err(previous)` when `f` returned `None`. Since
/// [`countdown`] returns `None` exactly for 0, the contract claims that an
/// `Ok` carries a positive count and an `Err` carries 0. Left unsaid, because
/// the counter is opaque here: that in the `Ok` case std moved the counter,
/// in one atomic step, from that count to `countdown(previous, n)`.
#[verifier::external_body]
pub(crate) fn fetch_countdown(stat: &AtomicUsize, n: usize) -> (r: Result<usize, usize>)
    ensures
        r matches Ok(p) ==> p != 0,
        r matches Err(p) ==> p == 0,
{
    stat.fetch_update(Ordering::Release, Ordering::Relaxed, |c| countdown(c, n))
}

/// `AtomicU32::fetch_update(Release, Relaxed, f)` with `f` the latch
/// transition [`countdown_u32`] for `n`; the same claims as
/// [`fetch_countdown`].
#[verifier::external_body]
pub(crate) fn fetch_countdown_u32(stat: &AtomicU32, n: u32) -> (r: Result<u32, u32>)
    ensures
        r matches Ok(p) ==> p != 0,
        r matches Err(p) ==> p == 0,
{
    stat.fetch_update(Ordering::Release, Ordering::Relaxed, |c| countdown_u32(c, n))
}

/// `core::hint::spin_loop()`: a hint to the processor inside a busy-wait.
/// It has no effect that a contract could speak of.
#[verifier::external_body]
fn spin_hint() {
    core::hint::spin_loop()
}

/// Reads the counter up to 17 times, with a spin hint between reads, and
/// stops early as soon as it reads 0. Returns whether it read 0.
pub(crate) fn spin_until_zero(stat: &AtomicUsize) -> bool {
    let mut s = stat.load(Ordering::Acquire);
    let mut i: u32 = 0;
    while i < 16
        invariant
            i <= 16,
        decreases 16 - i,
    {
        if s == 0 {
            return true;
        }
        spin_hint();
        s = stat.load(Ordering::Acquire);
        i = i + 1;
    }
    s == 0
}

/// [`spin_until_zero`] for the 32-bit counter of the futex latch: returns 0
/// when it read 0, and the last count it read otherwise.
pub(crate) fn spin_until_zero_u32(stat: &AtomicU32) -> u32 {
    let mut s = stat.load(Ordering::Acquire);
    let mut i: u32 = 0;
    while i < 16
        invariant
            i <= 16,
        decreases 16 - i,
    {
        if s == 0 {
            return 0;
        }
        spin_hint();
        s = stat.load(Ordering::Acquire);
        i = i + 1;
    }
    s
}

} // verus!
