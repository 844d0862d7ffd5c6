//! The trusted boundary around the channel transport: crossbeam's unbounded,
//! multi-producer channel, reached through a handful of small wrappers. Every
//! contract here restates what crossbeam's own documentation promises; the
//! outcome of a poll or a receive depends on the producer side and is
//! therefore left open.

use vstd::prelude::*;

use crate::control::TryRecv;

verus! {

#[verifier::external_type_specification]
#[verifier::external_body]
#[verifier::reject_recursive_types(T)]
pub struct ExSender<T>(crossbeam::channel::Sender<T>);

#[verifier::external_type_specification]
#[verifier::external_body]
#[verifier::reject_recursive_types(T)]
pub struct ExReceiver<T>(crossbeam::channel::Receiver<T>);

/// Relies on crossbeam::channel::unbounded: returns the producer and consumer
/// endpoints of a fresh channel of unbounded capacity.
#[verifier::external_body]
pub(crate) fn new_channel<T>() -> (crossbeam::channel::Sender<T>, crossbeam::channel::Receiver<T>) {
    crossbeam::channel::unbounded()
}

/// Relies on crossbeam::channel::Sender::send: on an unbounded channel the call
/// does not block; it succeeds while a consumer endpoint is alive, and on a
/// disconnected channel it fails with an error carrying the original message,
/// which this wrapper hands back unchanged.
#[verifier::external_body]
pub(crate) fn send_raw<T>(sender: &crossbeam::channel::Sender<T>, value: T) -> (r: Result<(), T>)
    ensures
        r matches Err(e) ==> e == value,
{
    match sender.send(value) {
        Ok(()) => Ok(()),
        Err(e) => Err(e.0),
    }
}

/// Relies on crossbeam::channel::Sender::clone: a clone is one more producer
/// endpoint into the same channel.
#[verifier::external_body]
pub(crate) fn clone_sender_raw<T>(sender: &crossbeam::channel::Sender<T>) -> crossbeam::channel::Sender<T> {
    sender.clone()
}

/// Relies on crossbeam::channel::Receiver::try_recv: without blocking, it
/// yields an item if one is ready, and otherwise reports the channel either
/// still connected but empty, or disconnected (every producer endpoint gone).
#[verifier::external_body]
pub(crate) fn try_recv_raw<T>(recv: &crossbeam::channel::Receiver<T>) -> TryRecv<T> {
    match recv.try_recv() {
        Ok(v) => TryRecv::Item(v),
        Err(crossbeam::channel::TryRecvError::Empty) => TryRecv::Empty,
        Err(crossbeam::channel::TryRecvError::Disconnected) => TryRecv::Disconnected,
    }
}

/// Relies on crossbeam::channel::Receiver::recv: blocks until either an item
/// arrives (`Some`) or the channel is empty with every producer endpoint
/// destroyed (`None`); a disconnection always wakes a blocked call.
#[verifier::external_body]
pub(crate) fn recv_raw<T>(recv: &crossbeam::channel::Receiver<T>) -> Option<T> {
    match recv.recv() {
        Ok(v) => Some(v),
        Err(_) => None,
    }
}

} // verus!
