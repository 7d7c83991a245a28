//! std types that the latches hold or pass through, declared so that verified
//! code may carry them. Each is opaque: nothing is claimed of its contents.

use vstd::prelude::*;

verus! {

/// `std::task::Waker`, the handle that wakes a suspended task.
#[verifier::external_type_specification]
#[verifier::external_body]
pub struct OpaqueWaker(std::task::Waker);

/// `std::sync::Mutex<T>`, a lock around a `T`.
#[verifier::external_type_specification]
#[verifier::external_body]
#[verifier::reject_recursive_types(T)]
pub struct OpaqueMutex<T: ?Sized>(std::sync::Mutex<T>);

/// `std::sync::MutexGuard<'a, T>`, the proof of holding a `Mutex<T>`; the
/// lock is released when it is dropped.
#[verifier::external_type_specification]
#[verifier::external_body]
#[verifier::reject_recursive_types(T)]
pub struct OpaqueMutexGuard<'a, T: ?Sized + 'a>(std::sync::MutexGuard<'a, T>);

/// `std::sync::Condvar`, a condition variable.
#[verifier::external_type_specification]
#[verifier::external_body]
pub struct OpaqueCondvar(std::sync::Condvar);

/// `std::time::Instant`, a reading of a monotonic clock.
#[verifier::external_type_specification]
#[verifier::external_body]
pub struct OpaqueInstant(std::time::Instant);

} // verus!
