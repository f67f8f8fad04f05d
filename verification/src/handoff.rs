//! Hand-off primitives between threads: unbounded channels and the lock that
//! guards the shared fan-out state.
//!
//! Nothing here is proved. Each item gives Verus the signature of a function of
//! `crossbeam_channel` or of `std::sync`, and claims of it only what holds
//! whatever other threads do in the meantime.

use vstd::prelude::*;

verus! {

/// `crossbeam_channel::Sender`, the sending end of a channel: carried as it
/// is, with nothing known of what is inside.
#[verifier::external_type_specification]
#[verifier::external_body]
#[verifier::reject_recursive_types(T)]
pub struct ExSender<T>(crossbeam_channel::Sender<T>);

/// `crossbeam_channel::Receiver`, the receiving end of a channel: carried as
/// it is, with nothing known of what is inside.
#[verifier::external_type_specification]
#[verifier::external_body]
#[verifier::reject_recursive_types(T)]
pub struct ExReceiver<T>(crossbeam_channel::Receiver<T>);

/// `std::sync::Mutex`: carried as it is, with nothing known of what it guards
/// until the lock is taken.
#[verifier::external_type_specification]
#[verifier::external_body]
#[verifier::reject_recursive_types(T)]
pub struct ExMutex<T: ?Sized>(std::sync::Mutex<T>);

/// `std::sync::MutexGuard`: the lock while it is held.
#[verifier::external_type_specification]
#[verifier::external_body]
#[verifier::reject_recursive_types(T)]
pub struct ExMutexGuard<'a, T: ?Sized + 'a>(std::sync::MutexGuard<'a, T>);

/// `crossbeam_channel::unbounded`: a fresh channel of unbounded capacity.
/// Nothing is claimed of the two ends.
pub assume_specification<T>[ crossbeam_channel::unbounded::<T> ]() -> (ends: (
    crossbeam_channel::Sender<T>,
    crossbeam_channel::Receiver<T>,
));

/// `crossbeam_channel::Sender::send` on an unbounded channel. The message is
/// handed back exactly when the channel is disconnected; whether it is depends
/// on the receiving side, so only the identity of a returned message is claimed.
#[verifier::external_body]
pub(crate) fn send<T>(sender: &crossbeam_channel::Sender<T>, message: T) -> (undelivered: Option<T>)
    ensures
        undelivered matches Some(m) ==> m == message,
{
    match sender.send(message) {
        Ok(()) => None,
        Err(error) => Some(error.0),
    }
}

/// `crossbeam_channel::Receiver::try_recv`: the next message if one is ready,
/// without blocking. What is ready depends on the sending side: no claim.
#[verifier::external_body]
pub(crate) fn try_recv<T>(receiver: &crossbeam_channel::Receiver<T>) -> (message: Option<T>) {
    receiver.try_recv().ok()
}

/// `crossbeam_channel::Receiver::try_iter`, collected: the messages that were
/// ready, oldest first, without blocking. Which ones were ready depends on the
/// sending side: no claim.
#[verifier::external_body]
pub(crate) fn drain<T>(receiver: &crossbeam_channel::Receiver<T>) -> (pending: Vec<T>) {
    receiver.try_iter().collect()
}

/// `std::sync::Mutex::new`: a lock that guards `value`. Nothing is claimed of
/// it.
pub assume_specification<T>[ std::sync::Mutex::<T>::new ](value: T) -> (mutex: std::sync::Mutex<T>);

/// `std::sync::Mutex::lock`, taking the guard also out of a poisoned lock, so
/// that the call returns whenever the lock can be had. The state behind the
/// lock is whatever its last holder left: no claim.
#[verifier::external_body]
pub(crate) fn lock<T>(mutex: &std::sync::Mutex<T>) -> (guard: std::sync::MutexGuard<'_, T>) {
    match mutex.lock() {
        Ok(guard) => guard,
        Err(poisoned) => poisoned.into_inner(),
    }
}

/// `DerefMut::deref_mut` of `std::sync::MutexGuard`: the state behind the lock,
/// for as long as the guard is borrowed.
#[verifier::external_body]
pub(crate) fn locked<'a, 'b, T>(guard: &'a mut std::sync::MutexGuard<'b, T>) -> (state: &'a mut T) {
    std::ops::DerefMut::deref_mut(guard)
}

} // verus!
