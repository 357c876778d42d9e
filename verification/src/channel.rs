//! Trusted declarations for the std mpsc channels that carry requests to the
//! actor loop and replies back. A value received here depends on what other
//! threads sent, so nothing is promised of it; the verified code states what
//! holds whatever comes back.

use vstd::prelude::*;
use std::sync::mpsc::Receiver;
use std::sync::mpsc::Sender;

verus! {

/// The sending end of a std mpsc queue, opaque to the verifier.
#[verifier::external_type_specification]
#[verifier::external_body]
#[verifier::reject_recursive_types(T)]
pub struct ExSender<T>(Sender<T>);

/// The receiving end of a std mpsc queue, opaque to the verifier.
#[verifier::external_type_specification]
#[verifier::external_body]
#[verifier::reject_recursive_types(T)]
pub struct ExReceiver<T>(Receiver<T>);

/// Relies on Sender::clone: a duplicate endpoint of the same queue, so that a
/// handle to the actor can be shared across threads. Called by the handle's
/// derived Clone.
pub assume_specification<T>[ <Sender<T> as Clone>::clone ](sender: &Sender<T>) -> Sender<T>;

/// Relies on std::sync::mpsc::channel: a connected sender/receiver pair for a
/// fresh queue.
#[verifier::external_body]
pub(crate) fn make_channel<T>() -> (Sender<T>, Receiver<T>) {
    std::sync::mpsc::channel::<T>()
}

/// Relies on Sender::send: enqueues the value; when the receiving end is gone
/// the value is dropped and nothing else happens. Fire-and-forget here: the
/// callers never read the send's outcome.
#[verifier::external_body]
pub(crate) fn send_to<T>(sender: &Sender<T>, value: T) {
    let _ = sender.send(value);
}

/// Relies on Receiver::recv: blocks for the next value in queue order, and
/// returns None once every sender is dropped and the queue is drained. What
/// arrives depends on other threads, so no more is promised.
#[verifier::external_body]
pub(crate) fn recv_from<T>(receiver: &Receiver<T>) -> Option<T> {
    receiver.recv().ok()
}

} // verus!
