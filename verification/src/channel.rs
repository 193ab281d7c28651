//! The relay channel: an unbounded multi-producer, single-consumer FIFO queue
//! shared between the client libraries' callback context and the engine's
//! per-tick drain system.
//!
//! The queue itself is flume's; see [`crate::relay`] for the discipline its
//! callers rely on.

use vstd::prelude::*;

verus! {

use flume::Sender;
use flume::Receiver;
use flume::SendError;
use flume::TryRecvError;

/// Relies on flume::unbounded: creates the two connected halves of one
/// unbounded channel; what is sent on the first is received on the second.
#[verifier::external_body]
fn unbounded_channel<T>() -> (r: (Sender<T>, Receiver<T>)) {
    flume::unbounded()
}

/// Relies on flume::Sender::send: on an unbounded channel it never blocks or
/// panics, and fails exactly when every receiver is dropped, giving the
/// message back inside the error.
#[verifier::external_body]
fn send_raw<T>(tx: &Sender<T>, message: T) -> (r: Result<(), T>)
    ensures
        r matches Err(m) ==> m == message,
{
    match tx.send(message) {
        Ok(()) => Ok(()),
        Err(SendError(m)) => Err(m),
    }
}

/// Relies on flume::Receiver::try_recv: never blocks or panics; yields
/// nothing when the channel is empty or every sender is dropped.
#[verifier::external_body]
fn try_recv_raw<T>(rx: &Receiver<T>) -> (r: Option<T>) {
    match rx.try_recv() {
        Ok(m) => Some(m),
        Err(TryRecvError::Empty) => None,
        Err(TryRecvError::Disconnected) => None,
    }
}

/// Relies on flume::Sender::clone: the clone is a further producer handle
/// onto the same channel.
#[verifier::external_body]
fn clone_sender_raw<T>(tx: &Sender<T>) -> (r: Sender<T>) {
    tx.clone()
}

/// Opens the relay queue: a producer half for the callback adapters and a
/// consumer half for the per-tick drain system. Created once at plugin build
/// time; it lives for the entire process.
pub fn open_channel<T>() -> (r: (Sender<T>, Receiver<T>)) {
    unbounded_channel()
}

/// A further producer handle onto the same queue, for callback invocations
/// that race with each other.
pub fn share_sender<T>(tx: &Sender<T>) -> (r: Sender<T>) {
    clone_sender_raw(tx)
}

/// Offers one payload to the queue, without blocking and without panicking.
/// Nothing comes back on success; a payload refused because the consumer half
/// is gone comes back unchanged, for the caller to log and drop - the failure
/// is never propagated to the client library.
pub fn send_payload<T>(tx: &Sender<T>, message: T) -> (rejected: Option<T>)
    ensures
        rejected matches Some(m) ==> m == message,
{
    match send_raw(tx, message) {
        Ok(()) => None,
        Err(m) => Some(m),
    }
}

/// One drain invocation: removes at most one payload from the queue, the
/// oldest one present, without blocking and without panicking. An empty queue
/// yields nothing; that is a normal condition, not an error.
pub fn drain_one<T>(rx: &Receiver<T>) -> (r: Option<T>) {
    try_recv_raw(rx)
}

} // verus!
