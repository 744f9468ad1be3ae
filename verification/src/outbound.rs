use vstd::prelude::*;

use core::sync::atomic::AtomicU64;
use core::sync::atomic::Ordering;

use crate::address::PeerAddress;
use crate::message::spec_ping_message;
use crate::message::Message;
use crate::outcome::EnqueueStatus;
use crate::outcome::NetworkError;
use crate::outcome::SendOutcome;

verus! {

/// tokio's bounded mpsc sender: the per-peer channel handle the registry
/// stores. Its queue lives with the peer's writer task, so the handle is
/// opaque here.
#[verifier::external_type_specification]
#[verifier::external_body]
#[verifier::reject_recursive_types(T)]
pub struct ExSender<T>(tokio::sync::mpsc::Sender<T>);

/// tokio's non-blocking-send error, carrying the unsent message.
#[verifier::external_type_specification]
#[verifier::external_body]
#[verifier::reject_recursive_types(T)]
pub struct ExTrySendError<T>(tokio::sync::mpsc::error::TrySendError<T>);

/// The concurrent address-to-channel map the live registry is built on:
/// lock-free reads, with mutation owned by the connection-lifecycle
/// collaborator.
#[verifier::external_type_specification]
#[verifier::external_body]
#[verifier::reject_recursive_types(K)]
#[verifier::reject_recursive_types(V)]
pub struct ExMpmcMap<
    K: Send + Sync + core::hash::Hash + Clone + Eq + 'static,
    V: Send + Clone + Sync + 'static,
>(mpmc_map::MpmcMap<K, V>);

/// Relies on mpmc_map::MpmcMap::get: a lock-free read of the map's
/// current snapshot, returning a clone of the channel registered under
/// `addr`, if one is present. Concurrent inserts and removals by the
/// lifecycle collaborator make the answer depend on timing, so nothing
/// more can be promised of it.
#[verifier::external_body]
fn channel_lookup(
    channels: &mpmc_map::MpmcMap<PeerAddress, tokio::sync::mpsc::Sender<Message>>,
    addr: PeerAddress,
) -> Option<tokio::sync::mpsc::Sender<Message>> {
    channels.get(&addr)
}

/// Relies on tokio::sync::mpsc::Sender::try_send: a non-suspending
/// enqueue attempt that fails with `Full` when the channel is at capacity
/// and with `Closed` when the receiver is gone, handing the unsent
/// message back inside the error either way. Whether it succeeds depends
/// on the channel's concurrent state, so only the returned message is
/// pinned down.
#[verifier::external_body]
fn channel_try_send(channel: &tokio::sync::mpsc::Sender<Message>, message: Message) -> (r:
    EnqueueStatus)
    ensures
        r matches EnqueueStatus::Full(m) ==> m == message,
        r matches EnqueueStatus::Closed(m) ==> m == message,
{
    match channel.try_send(message) {
        Ok(()) => EnqueueStatus::Enqueued,
        Err(tokio::sync::mpsc::error::TrySendError::Full(m)) => EnqueueStatus::Full(m),
        Err(tokio::sync::mpsc::error::TrySendError::Closed(m)) => EnqueueStatus::Closed(m),
    }
}

/// A core data structure for handling outbound network traffic against
/// the real concurrent collaborators: the map of live write channels,
/// shared with the connection-lifecycle collaborator, and the
/// process-wide delivery counters fed by the writer tasks.
///
/// `OutboundCore` is this structure's sequential model and carries the
/// exact dispatch contracts; here, where registry entries and queue space
/// come and go under concurrent timing, the contracts promise what holds
/// of every interleaving: dispatch never blocks, never counts, and hands
/// every dropped message back with the reason.
pub struct Outbound {
    /// The map of remote addresses to their active write channels.
    pub channels: mpmc_map::MpmcMap<PeerAddress, tokio::sync::mpsc::Sender<Message>>,
    /// The monotonic counter for the number of send requests that
    /// succeeded.
    pub send_success_count: AtomicU64,
    /// The monotonic counter for the number of send requests that failed.
    pub send_failure_count: AtomicU64,
}

impl Outbound {
    pub fn new(channels: mpmc_map::MpmcMap<PeerAddress, tokio::sync::mpsc::Sender<Message>>) -> (o:
        Outbound)
        ensures
            o.channels == channels,
    {
        Outbound {
            channels,
            send_success_count: AtomicU64::new(0),
            send_failure_count: AtomicU64::new(0),
        }
    }

    /// Fetches the outbound channel to the given remote address, failing
    /// when the peer has no live registry entry.
    fn outbound_channel(&self, remote_address: PeerAddress) -> (r: Result<
        tokio::sync::mpsc::Sender<Message>,
        NetworkError,
    >)
        ensures
            r matches Err(e) ==> e == NetworkError::OutboundChannelMissing,
    {
        match channel_lookup(&self.channels, remote_address) {
            Some(channel) => Ok(channel),
            None => Err(NetworkError::OutboundChannelMissing),
        }
    }

    /// Sends the given request to the address associated with it: one
    /// registry lookup, then one non-blocking enqueue attempt. Fire and
    /// forget — a dropped request is handed back with the reason for the
    /// caller to log, never retried and never buffered, and the counters
    /// are left to the writer tasks.
    pub fn send_request(&self, request: Message) -> (r: SendOutcome)
        requires
            request.is_outbound(),
        ensures
            r matches SendOutcome::PeerDisconnected(m) ==> m == request,
            r matches SendOutcome::QueueFull(m) ==> m == request,
            r matches SendOutcome::QueueClosed(m) ==> m == request,
    {
        let target_addr = request.receiver();
        match self.outbound_channel(target_addr) {
            Ok(channel) => match channel_try_send(&channel, request) {
                EnqueueStatus::Enqueued => SendOutcome::Enqueued,
                EnqueueStatus::Full(m) => SendOutcome::QueueFull(m),
                EnqueueStatus::Closed(m) => SendOutcome::QueueClosed(m),
            },
            Err(_) => SendOutcome::PeerDisconnected(request),
        }
    }

    /// The liveness pinger against the real dispatcher: sends
    /// `Ping(height)` to the peer, height `0` standing in when no sync
    /// collaborator supplied one, with exactly `send_request`'s failure
    /// semantics. Notifying the peer book belongs to the caller.
    pub fn send_ping(&self, remote_address: PeerAddress, current_block_height: Option<u64>) -> (r:
        SendOutcome)
        ensures
            r matches SendOutcome::PeerDisconnected(m) ==> m == spec_ping_message(
                remote_address,
                current_block_height,
            ),
            r matches SendOutcome::QueueFull(m) ==> m == spec_ping_message(
                remote_address,
                current_block_height,
            ),
            r matches SendOutcome::QueueClosed(m) ==> m == spec_ping_message(
                remote_address,
                current_block_height,
            ),
    {
        let message = Message::ping(remote_address, current_block_height);
        self.send_request(message)
    }

    /// The per-message decision of a connection writer task: a successful
    /// wire write bumps the success counter by one, a failed one the
    /// failure counter, and the writer carries on either way. Uses
    /// AtomicU64::fetch_add, which wraps only after 2^64 writes.
    pub fn record_write_outcome(&self, write_ok: bool) {
        if write_ok {
            self.send_success_count.fetch_add(1, Ordering::SeqCst);
        } else {
            self.send_failure_count.fetch_add(1, Ordering::SeqCst);
        }
    }

    /// Read access to the success counter, for external metrics surfaces.
    /// Uses AtomicU64::load.
    pub fn success_count(&self) -> u64 {
        self.send_success_count.load(Ordering::SeqCst)
    }

    /// Read access to the failure counter, for external metrics surfaces.
    /// Uses AtomicU64::load.
    pub fn failure_count(&self) -> u64 {
        self.send_failure_count.load(Ordering::SeqCst)
    }
}

} // verus!
