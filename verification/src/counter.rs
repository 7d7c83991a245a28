//! The arithmetic of a latch counter, shared by every latch implementation.
//!
//! A latch only ever applies one transition to its counter: an atomic
//! read-modify-write that lowers the count by `n`, saturating at 0, and that
//! is skipped when the count is already 0. The transition that lowers a
//! positive count to 0 is the one that releases the waiters.

use vstd::prelude::*;

verus! {

/// The count left after lowering `count` by `n`, saturating at 0.
pub open spec fn remaining_after(count: nat, n: nat) -> nat {
    if count <= n {
        0
    } else {
        (count - n) as nat
    }
}

/// Whether lowering `count` by `n` is the transition that brings a positive
/// counter to 0, which is when the waiters are released.
pub open spec fn releases(count: nat, n: nat) -> bool {
    count > 0 && remaining_after(count, n) == 0
}

/// The counter after a whole history of arrivals, applied in order.
pub open spec fn after_all(count: nat, arrivals: Seq<nat>) -> nat
    decreases arrivals.len(),
{
    if arrivals.len() == 0 {
        count
    } else {
        after_all(remaining_after(count, arrivals[0]), arrivals.drop_first())
    }
}

/// How many transitions of a history of arrivals release the waiters.
pub open spec fn releases_in(count: nat, arrivals: Seq<nat>) -> nat
    decreases arrivals.len(),
{
    if arrivals.len() == 0 {
        0
    } else {
        (if releases(count, arrivals[0]) { 1nat } else { 0nat }) + releases_in(
            remaining_after(count, arrivals[0]),
            arrivals.drop_first(),
        )
    }
}

/// The sum of a history of arrivals.
pub open spec fn total(arrivals: Seq<nat>) -> nat
    decreases arrivals.len(),
{
    if arrivals.len() == 0 {
        0
    } else {
        arrivals[0] + total(arrivals.drop_first())
    }
}

/// The value a counter of `usize` moves to when it is lowered by `n`, or
/// `None` when it has already reached 0 and must be left alone.
///
/// This is the function that the latches hand to the atomic update of their
/// counter.
pub fn countdown(count: usize, n: usize) -> (next: Option<usize>)
    ensures
        next is None <==> count == 0,
        next matches Some(c) ==> c == remaining_after(count as nat, n as nat),
{
    if count == 0 {
        None
    } else if count < n {
        Some(0)
    } else {
        Some(count - n)
    }
}

/// [`countdown`] for the 32-bit counter of the futex latch.
pub fn countdown_u32(count: u32, n: u32) -> (next: Option<u32>)
    ensures
        next is None <==> count == 0,
        next matches Some(c) ==> c == remaining_after(count as nat, n as nat),
{
    if count == 0 {
        None
    } else if count < n {
        Some(0)
    } else {
        Some(count - n)
    }
}

/// Whether an update that found `previous` in the counter and lowered it by
/// `n` is the one that must release the waiters.
pub fn is_release(previous: usize, n: usize) -> (r: bool)
    ensures
        r == releases(previous as nat, n as nat),
{
    previous != 0 && previous <= n
}

/// [`is_release`] for the 32-bit counter of the futex latch.
pub fn is_release_u32(previous: u32, n: u32) -> (r: bool)
    ensures
        r == releases(previous as nat, n as nat),
{
    previous != 0 && previous <= n
}

/// What `try_wait` answers for an observed count: `Ok(())` once the counter
/// has reached 0, else the count itself as the error.
pub fn wait_outcome(observed: usize) -> (r: Result<(), usize>)
    ensures
        r is Ok <==> observed == 0,
        r matches Err(c) ==> c == observed,
{
    if observed == 0 {
        Ok(())
    } else {
        Err(observed)
    }
}

/// [`wait_outcome`] for the 32-bit counter of the futex latch.
pub fn wait_outcome_u32(observed: u32) -> (r: Result<(), u32>)
    ensures
        r is Ok <==> observed == 0,
        r matches Err(c) ==> c == observed,
{
    if observed == 0 {
        Ok(())
    } else {
        Err(observed)
    }
}

/// The counter never goes up: an arrival leaves it at most where it was.
pub proof fn lemma_never_increases(count: nat, n: nat)
    ensures
        remaining_after(count, n) <= count,
{
}

/// Once the counter has reached 0 it stays there, and no later arrival
/// releases the waiters again: a latch is a one-shot phenomenon.
pub proof fn lemma_zero_is_final(n: nat)
    ensures
        remaining_after(0, n) == 0,
        !releases(0, n),
{
}

/// Arriving with 0 changes nothing and releases nobody.
pub proof fn lemma_arrive_zero(count: nat)
    ensures
        remaining_after(count, 0) == count,
        !releases(count, 0),
{
}

/// `count_down()` is `arrive(1)`: it lowers a positive count by one, and
/// releases the waiters exactly when the count was 1.
pub proof fn lemma_count_down(count: nat)
    ensures
        count > 0 ==> remaining_after(count, 1) == count - 1,
        releases(count, 1) <==> count == 1,
{
}

/// Two arrivals in a row lower the counter as one arrival of their sum.
pub proof fn lemma_arrivals_add(count: nat, a: nat, b: nat)
    ensures
        remaining_after(remaining_after(count, a), b) == remaining_after(count, a + b),
{
}

/// Over any history of arrivals, the counter ends at the initial count minus
/// the sum of the arrivals, saturating at 0, and the waiters are released by
/// exactly one transition when the arrivals reach the initial (positive)
/// count, and by none otherwise.
pub proof fn lemma_history(count: nat, arrivals: Seq<nat>)
    ensures
        after_all(count, arrivals) == remaining_after(count, total(arrivals)),
        releases_in(count, arrivals) == (if count > 0 && total(arrivals) >= count {
            1nat
        } else {
            0nat
        }),
    decreases arrivals.len(),
{
    if arrivals.len() > 0 {
        let rest = arrivals.drop_first();
        let next = remaining_after(count, arrivals[0]);
        lemma_history(next, rest);
        lemma_arrivals_add(count, arrivals[0], total(rest));
    }
}

} // verus!
