//! The outbound queue of a peer.
//!
//! A queue is a bounded `tokio::sync::mpsc` channel. The presence store
//! keeps the sending end; the task that writes to the peer's connection
//! keeps the receiving end. Verus does not look inside either: whether a
//! message is taken depends on how far the other side has drained, so the
//! functions below promise nothing about their outcome.

use crate::messages::MumblePacket;
use tokio::sync::mpsc::error::TrySendError;
use vstd::prelude::*;

verus! {

#[verifier::external_type_specification]
#[verifier::external_body]
#[verifier::reject_recursive_types(T)]
pub struct ExSender<T>(tokio::sync::mpsc::Sender<T>);

#[verifier::external_type_specification]
#[verifier::external_body]
#[verifier::reject_recursive_types(T)]
pub struct ExReceiver<T>(tokio::sync::mpsc::Receiver<T>);

/// The sending end of a peer's outbound queue.
pub type Tx = tokio::sync::mpsc::Sender<MumblePacket>;

/// The receiving end of a peer's outbound queue.
pub type Rx = tokio::sync::mpsc::Receiver<MumblePacket>;

/// Messages that an outbound queue holds at most.
pub const OUTBOUND_CAPACITY: usize = 256;

/// What became of a message offered to a queue.
#[derive(Clone, Copy, Debug, PartialEq, Eq, Structural)]
pub enum Enqueued {
    /// The queue took it.
    Queued,
    /// The queue was full: the message is dropped.
    Full,
    /// The receiving end is gone: the message is dropped.
    Closed,
}

/// `tokio::sync::mpsc::channel`: a new bounded channel. It panics on a
/// capacity of zero, and on one above an eighth of the largest `usize`,
/// which is more permits than its semaphore counts; both are excluded.
#[verifier::external_body]
pub(crate) fn queue_channel(capacity: usize) -> (ends: (Tx, Rx))
    requires
        0 < capacity <= usize::MAX / 8,
{
    tokio::sync::mpsc::channel(capacity)
}

/// `Sender::try_send`: offers a message without waiting. Which of the
/// three outcomes comes back depends on the state of the channel.
#[verifier::external_body]
pub(crate) fn queue_try_send(tx: &Tx, packet: MumblePacket) -> (outcome: Enqueued) {
    match tx.try_send(packet) {
        Ok(()) => Enqueued::Queued,
        Err(TrySendError::Full(_)) => Enqueued::Full,
        Err(TrySendError::Closed(_)) => Enqueued::Closed,
    }
}

} // verus!
