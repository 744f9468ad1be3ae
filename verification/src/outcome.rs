use vstd::prelude::*;

use crate::message::Message;

verus! {

/// What a non-blocking enqueue attempt did. `Full` and `Closed` hand the
/// unsent message back to the caller.
#[derive(Debug)]
pub enum EnqueueStatus {
    /// The message was appended to the queue.
    Enqueued,
    /// The queue was at capacity; the message was not enqueued.
    Full(Message),
    /// The consumer is gone; the message was not enqueued.
    Closed(Message),
}

/// What became of one dispatched message. `send` is fire-and-forget: a
/// failed dispatch is terminal and local, and the dropped message is
/// handed back only so callers and tests can observe the drop.
#[derive(Debug)]
pub enum SendOutcome {
    /// The message now sits in the destination peer's queue.
    Enqueued,
    /// No registry entry for the destination: the message was dropped.
    PeerDisconnected(Message),
    /// The destination's queue was at capacity: the message was dropped.
    QueueFull(Message),
    /// The destination's writer is gone but the registry entry is stale:
    /// the message was dropped, and the lifecycle collaborator should
    /// reconcile the entry.
    QueueClosed(Message),
}

/// The dispatcher's internal error for a missing registry entry.
#[derive(Clone, Copy, PartialEq, Eq, Structural, Debug)]
pub enum NetworkError {
    OutboundChannelMissing,
}

} // verus!
