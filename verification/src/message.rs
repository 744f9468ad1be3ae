use vstd::prelude::*;

use crate::address::PeerAddress;

verus! {

/// The protocol message kinds that can be dispatched to a peer.
/// Message content is opaque to the dispatch layer; only the tag and,
/// for a ping, the advertised block height matter to its contracts.
#[derive(Clone, Debug, PartialEq, Eq)]
pub enum Payload {
    /// A liveness ping carrying the sender's current block height.
    Ping(u64),
    /// The response to a ping.
    Pong,
    /// A serialized block.
    Block(Vec<u8>),
    /// A serialized transaction being relayed.
    Transaction(Vec<u8>),
}

/// Tags a message with the peer it is bound to or came from.
#[derive(Clone, Copy, PartialEq, Eq, Structural, Debug)]
pub enum Direction {
    /// Addressed to the given peer; the only direction the dispatcher routes.
    Outbound(PeerAddress),
    /// Received from the given peer; never handed to the dispatcher.
    Inbound(PeerAddress),
}

/// A directional envelope: a destination tag plus a payload. Built fresh
/// per send and consumed by the dispatch attempt.
#[derive(Clone, Debug, PartialEq, Eq)]
pub struct Message {
    pub direction: Direction,
    pub payload: Payload,
}

/// The height a ping advertises: the sync collaborator's current block
/// height, or `0` when no sync collaborator is present.
pub open spec fn ping_height(height: Option<u64>) -> u64 {
    match height {
        Some(h) => h,
        None => 0,
    }
}

/// The exact message the liveness pinger dispatches to `addr`.
pub open spec fn spec_ping_message(addr: PeerAddress, height: Option<u64>) -> Message {
    Message {
        direction: Direction::Outbound(addr),
        payload: Payload::Ping(ping_height(height)),
    }
}

impl Message {
    /// Whether this message is addressed to a peer.
    pub open spec fn is_outbound(self) -> bool {
        self.direction is Outbound
    }

    /// The peer an outbound message is addressed to.
    pub open spec fn spec_receiver(self) -> PeerAddress {
        match self.direction {
            Direction::Outbound(a) => a,
            Direction::Inbound(a) => a,
        }
    }

    pub fn new(direction: Direction, payload: Payload) -> (m: Message)
        ensures
            m == (Message { direction, payload }),
    {
        Message { direction, payload }
    }

    /// The destination address of this message.
    pub fn receiver(&self) -> (a: PeerAddress)
        requires
            self.is_outbound(),
        ensures
            a == self.spec_receiver(),
    {
        match self.direction {
            Direction::Outbound(a) => a,
            Direction::Inbound(_) => vstd::pervasive::unreached(),
        }
    }

    /// Builds the liveness ping for `addr`: height `0` stands in when no
    /// sync collaborator supplied one.
    pub fn ping(addr: PeerAddress, height: Option<u64>) -> (m: Message)
        ensures
            m == spec_ping_message(addr, height),
    {
        let h: u64 = match height {
            Some(h) => h,
            None => 0,
        };
        Message {
            direction: Direction::Outbound(addr),
            payload: Payload::Ping(h),
        }
    }
}

} // verus!
