//! std's lock and condition variable, which vstd does not specify.
//!
//! Whatever another thread did meanwhile may be found under the lock, so
//! nothing is stated of what a guard holds: the decisions taken on it are the
//! verified methods of `ChannelState`.
use crate::state::ChannelState;
use std::sync::{Arc, Condvar, Mutex, MutexGuard, PoisonError};
use vstd::prelude::*;

verus! {

#[verifier::external_type_specification]
#[verifier::external_body]
#[verifier::reject_recursive_types(T)]
pub struct ExMutex<T: ?Sized>(Mutex<T>);

#[verifier::external_type_specification]
#[verifier::external_body]
#[verifier::reject_recursive_types(T)]
pub struct ExMutexGuard<'a, T: ?Sized + 'a>(MutexGuard<'a, T>);

#[verifier::external_type_specification]
#[verifier::external_body]
pub struct ExCondvar(Condvar);

/// Relies on std's `Mutex::new`: a lock around `t`.
pub assume_specification<T>[ Mutex::<T>::new ](t: T) -> Mutex<T>;

/// Relies on std's `Condvar::new`: a condition variable with no waiter.
pub assume_specification[ Condvar::new ]() -> Condvar;

/// Relies on std's `Condvar::notify_one`: wakes one waiter, if any.
pub assume_specification[ Condvar::notify_one ](cv: &Condvar);

/// Relies on std's `Mutex::lock`: blocks until the lock is held. A poisoned
/// lock is taken over as it is: no code of this library panics while holding
/// it, so what it guards is never left half-updated.
#[verifier::external_body]
pub(crate) fn lock<T>(m: &Mutex<T>) -> MutexGuard<'_, T> {
    m.lock().unwrap_or_else(PoisonError::into_inner)
}

/// Relies on `DerefMut` of std's `MutexGuard`: the value that the held lock
/// guards.
#[verifier::external_body]
pub(crate) fn guarded<'a, 'b, T>(g: &'b mut MutexGuard<'a, T>) -> &'b mut T {
    &mut **g
}

/// Relies on std's `Condvar::wait_while`: releases the lock, sleeps, and
/// takes the lock back, until the state under it no longer asks the receiver
/// to wait.
#[verifier::external_body]
pub(crate) fn wait_while_empty<'a, T>(
    cv: &Condvar,
    g: MutexGuard<'a, ChannelState<T>>,
) -> MutexGuard<'a, ChannelState<T>> {
    cv.wait_while(g, |s| s.must_wait()).unwrap_or_else(PoisonError::into_inner)
}

/// Relies on `Clone` of std's `Arc`: a second handle on the same allocation.
#[verifier::external_body]
pub(crate) fn share<T>(a: &Arc<T>) -> (r: Arc<T>)
    ensures
        r == *a,
{
    Arc::clone(a)
}

} // verus!
