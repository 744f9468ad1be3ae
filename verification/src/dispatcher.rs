use vstd::prelude::*;

use crate::address::PeerAddress;
use crate::message::spec_ping_message;
use crate::message::Message;
use crate::outcome::EnqueueStatus;
use crate::outcome::SendOutcome;
use crate::registry::Registry;

verus! {

/// The outbound core: the channel registry the dispatcher routes over,
/// and the two process-wide delivery counters the writer tasks feed.
/// Counters start at zero, only ever grow, and are attributed to actual
/// wire delivery, never to enqueueing.
pub struct OutboundCore {
    pub registry: Registry,
    /// How many dequeued messages were written to the wire successfully.
    pub send_success_count: u64,
    /// How many dequeued messages failed to serialize or write.
    pub send_failure_count: u64,
    /// How many messages writers have dequeued over the core's lifetime.
    pub dequeued_count: Ghost<nat>,
}

impl OutboundCore {
    /// The registry is well formed, and every dequeued message was
    /// counted exactly once: as a success or as a failure.
    pub open spec fn wf(self) -> bool {
        &&& self.registry.wf()
        &&& self.send_success_count + self.send_failure_count == self.dequeued_count@
    }

    /// Everything one dispatch of `message` may do: it never blocks past
    /// the registry lookup, never touches the counters, never touches any
    /// peer but the destination, and enqueues exactly when the
    /// destination is registered with an open queue below capacity —
    /// otherwise the message is dropped and handed back with the reason.
    pub open spec fn dispatch_post(
        pre: OutboundCore,
        post: OutboundCore,
        message: Message,
        r: SendOutcome,
    ) -> bool {
        let a = message.spec_receiver();
        let reg0 = pre.registry;
        let reg1 = post.registry;
        // dispatch never updates delivery telemetry
        &&& post.send_success_count == pre.send_success_count
        &&& post.send_failure_count == pre.send_failure_count
        &&& post.dequeued_count == pre.dequeued_count
        // no registry entry: the message is dropped, nothing is enqueued
        &&& (!reg0.contains_addr(a) ==> (r matches SendOutcome::PeerDisconnected(m) && m
            == message) && reg1.entries@ == reg0.entries@)
        &&& (reg0.contains_addr(a) ==> ({
            let q0 = reg0.queue_at(a);
            let q1 = reg1.queue_at(a);
            &&& reg1.contains_addr(a)
            &&& q1.capacity == q0.capacity
            &&& q1.closed == q0.closed
            // open and below capacity: appended at the back
            &&& (q0.can_accept() ==> r is Enqueued && q1@ == q0@.push(message))
            // full: the newest message is shed, the queue unchanged
            &&& (!q0.closed && q0@.len() >= q0.capacity ==> (r matches SendOutcome::QueueFull(m)
                && m == message) && q1@ == q0@)
            // consumer gone but entry stale: dropped, flagged for the
            // lifecycle collaborator
            &&& (q0.closed ==> (r matches SendOutcome::QueueClosed(m) && m == message) && q1@
                == q0@)
        }))
        // isolation: no other peer's entry moves
        &&& (forall|b: PeerAddress| #![auto]
            b != a ==> (reg1.contains_addr(b) <==> reg0.contains_addr(b)))
        &&& (forall|b: PeerAddress| #![auto]
            b != a && reg0.contains_addr(b) ==> reg1.queue_at(b) == reg0.queue_at(b))
    }

    pub fn new(registry: Registry) -> (c: OutboundCore)
        requires
            registry.wf(),
        ensures
            c.wf(),
            c.registry == registry,
            c.send_success_count == 0,
            c.send_failure_count == 0,
            c.dequeued_count@ == 0,
    {
        OutboundCore {
            registry,
            send_success_count: 0,
            send_failure_count: 0,
            dequeued_count: Ghost(0nat),
        }
    }

    /// The sole dispatch entry point, shared by every protocol handler:
    /// one registry lookup, then one non-blocking enqueue attempt on the
    /// destination's queue. Fire and forget: a failed dispatch is logged
    /// and dropped by the caller, never retried and never queued.
    pub fn send(&mut self, message: Message) -> (r: SendOutcome)
        requires
            old(self).wf(),
            message.is_outbound(),
        ensures
            final(self).wf(),
            Self::dispatch_post(*old(self), *final(self), message, r),
    {
        let target_addr = message.receiver();
        match self.registry.try_enqueue_at(target_addr, message) {
            Ok(EnqueueStatus::Enqueued) => SendOutcome::Enqueued,
            Ok(EnqueueStatus::Full(m)) => SendOutcome::QueueFull(m),
            Ok(EnqueueStatus::Closed(m)) => SendOutcome::QueueClosed(m),
            Err(m) => SendOutcome::PeerDisconnected(m),
        }
    }

    /// The liveness pinger: dispatches `Ping(height)` to `addr`, height
    /// `0` standing in when no sync collaborator is present. The ping
    /// takes exactly `send`'s failure semantics — no special-cased
    /// reliability. Notifying the peer book that a ping went out is the
    /// caller's concern: that state is not owned by this core.
    pub fn ping(&mut self, addr: PeerAddress, height: Option<u64>) -> (r: SendOutcome)
        requires
            old(self).wf(),
        ensures
            final(self).wf(),
            Self::dispatch_post(*old(self), *final(self), spec_ping_message(addr, height), r),
    {
        let message = Message::ping(addr, height);
        self.send(message)
    }

    /// One turn of a peer's connection writer: dequeue the oldest message
    /// queued for `addr`, if any, and record the outcome of its
    /// (external) serialization and wire write. A success bumps the
    /// success counter by exactly one, a failure the failure counter; a
    /// failed write never stops the writer. Dequeueing is strictly FIFO,
    /// and no other peer's queue is touched.
    pub fn writer_step(&mut self, addr: PeerAddress, write_ok: bool) -> (r: Option<Message>)
        requires
            old(self).wf(),
            old(self).send_success_count < u64::MAX,
            old(self).send_failure_count < u64::MAX,
        ensures
            final(self).wf(),
            !old(self).registry.contains_addr(addr) ==> r is None && final(self).registry.entries@
                == old(self).registry.entries@ && final(self).send_success_count == old(
                self,
            ).send_success_count && final(self).send_failure_count == old(self).send_failure_count,
            old(self).registry.contains_addr(addr) ==> ({
                let q0 = old(self).registry.queue_at(addr);
                let q1 = final(self).registry.queue_at(addr);
                &&& final(self).registry.contains_addr(addr)
                &&& q1.capacity == q0.capacity
                &&& q1.closed == q0.closed
                &&& (q0@.len() == 0 ==> r is None && q1@ == q0@ && final(self).send_success_count
                    == old(self).send_success_count && final(self).send_failure_count == old(
                    self,
                ).send_failure_count)
                &&& (q0@.len() > 0 ==> ({
                    &&& r == Some(q0@.first())
                    &&& q1@ == q0@.drop_first()
                    &&& final(self).dequeued_count@ == old(self).dequeued_count@ + 1
                    &&& (write_ok ==> final(self).send_success_count == old(
                        self,
                    ).send_success_count + 1 && final(self).send_failure_count == old(
                        self,
                    ).send_failure_count)
                    &&& (!write_ok ==> final(self).send_failure_count == old(
                        self,
                    ).send_failure_count + 1 && final(self).send_success_count == old(
                        self,
                    ).send_success_count)
                }))
            }),
            forall|b: PeerAddress| #![auto]
                b != addr ==> (final(self).registry.contains_addr(b) <==> old(
                    self,
                ).registry.contains_addr(b)),
            forall|b: PeerAddress| #![auto]
                b != addr && old(self).registry.contains_addr(b) ==> final(self).registry.queue_at(
                    b,
                ) == old(self).registry.queue_at(b),
    {
        let dequeued = self.registry.dequeue_at(addr);
        match dequeued {
            Some(m) => {
                if write_ok {
                    self.send_success_count = self.send_success_count + 1;
                } else {
                    self.send_failure_count = self.send_failure_count + 1;
                }
                proof {
                    self.dequeued_count@ = old(self).dequeued_count@ + 1;
                }
                Some(m)
            },
            None => None,
        }
    }

    /// Whether `addr`'s writer may terminate: only once its queue has
    /// been closed by the registry-removal path and permanently drained,
    /// or its entry is gone altogether. An open or non-empty queue keeps
    /// the writer waiting; a single write failure never ends it.
    pub fn writer_finished(&self, addr: PeerAddress) -> (done: bool)
        requires
            self.wf(),
        ensures
            done == (!self.registry.contains_addr(addr) || (self.registry.queue_at(addr).closed
                && self.registry.queue_at(addr)@.len() == 0)),
    {
        match self.registry.get_queue(addr) {
            Some(q) => q.is_closed() && q.len() == 0,
            None => true,
        }
    }

    /// Read access to the success counter, for external metrics surfaces.
    pub fn success_count(&self) -> (n: u64)
        ensures
            n == self.send_success_count,
    {
        self.send_success_count
    }

    /// Read access to the failure counter, for external metrics surfaces.
    pub fn failure_count(&self) -> (n: u64)
        ensures
            n == self.send_failure_count,
    {
        self.send_failure_count
    }
}

} // verus!


