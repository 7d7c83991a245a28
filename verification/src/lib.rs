//! Latches: downward counters that synchronize threads or coordinate tasks.
//!
//! A latch is initialized with a count. Participants decrement it with
//! `count_down()` or `arrive(n)`; the counter saturates at 0 and, once it has
//! reached 0, it stays there. The update that brings the counter to 0 is the
//! one that releases the waiters. Counting down never waits.
//!
//! - [`futex`]: a 32-bit counter; waiting threads sleep on the counter itself.
//! - [`sync`]: waiting threads block on a condition variable, with timeouts.
//! - [`task`]: waiting tasks register wakers in a slab, woken all at once.
//! - [`counter`]: the arithmetic of the counter that all three share, with
//!   its laws.
//! - [`WaitTimeoutResult`]: the answer of a wait that can give up.

pub mod counter;
pub mod futex;
pub mod sync;
pub mod task;
pub mod timeout;

mod atomics;
mod foreign;
mod lock;

pub use timeout::WaitTimeoutResult;
