# latches

A latch is a downward counter which can be used to synchronize threads or
coordinate tasks. The counter is initialized on creation, decremented by
`count_down()` or `arrive(n)` (saturating at 0), and never reset: it is a
one-shot phenomenon. The decrement that brings it to 0 releases every waiter.

Three latches share one verified counter arithmetic:

- `futex::Latch`: a `u32` counter; waiters sleep on it through `atomic-wait`.
- `sync::Latch`: waiters block on a std condition variable; waits can time out.
- `task::Latch`: waiters are async tasks whose wakers sit in a slab with a
  free list (`task::waiters`), woken all at once.

## Layout

- `src/` is the library, verified with Verus. The laws of the counter
  arithmetic (a count never goes up, stays at 0, and over any history of
  arrivals exactly one transition releases the waiters) are proved in
  `src/counter.rs`, of the transition function that each latch applies to its
  counter in one atomic update. The counter itself is a std atomic shared
  between threads, so what a read of it returns is not proved; every decision
  taken on such a read is, by a function that takes the value read. The
  slab's invariant and laws are in `src/task/waiters.rs`.
- `app/` holds what cannot be verified: the unbounded blocking loops of the
  thread waits (`Wait`, `WaitTimeout`) and the `Future` adapters of the task
  latch (`AsyncWait`). Each is a thin loop or adapter over one verified round
  or poll of the library.
- `tests/` exercises the library.
