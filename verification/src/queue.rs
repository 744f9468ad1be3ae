use vstd::prelude::*;

use crate::message::Message;
use crate::outcome::EnqueueStatus;

verus! {

/// What a non-blocking enqueue leaves in a queue: the message is appended
/// exactly when the queue is open and below capacity, and otherwise the
/// contents are untouched (the newest message is shed, never an older one).
pub open spec fn spec_enqueue_contents(
    s: Seq<Message>,
    capacity: nat,
    closed: bool,
    m: Message,
) -> Seq<Message> {
    if !closed && s.len() < capacity {
        s.push(m)
    } else {
        s
    }
}

/// The contents after offering `msgs`, in order, to an open queue that
/// starts with contents `s`.
pub open spec fn spec_enqueue_all(s: Seq<Message>, capacity: nat, msgs: Seq<Message>) -> Seq<
    Message,
>
    decreases msgs.len(),
{
    if msgs.len() == 0 {
        s
    } else {
        spec_enqueue_all(
            spec_enqueue_contents(s, capacity, false, msgs.first()),
            capacity,
            msgs.drop_first(),
        )
    }
}

/// A bounded FIFO queue of messages bound for one peer: the producer side
/// offers messages without ever blocking, and the peer's writer drains it
/// strictly in enqueue order. `closed` models the consumer having gone
/// away while the registry entry is still up.
pub struct OutboundQueue {
    pub items: Vec<Message>,
    pub capacity: usize,
    pub closed: bool,
}

impl View for OutboundQueue {
    type V = Seq<Message>;

    open spec fn view(&self) -> Seq<Message> {
        self.items@
    }
}

impl OutboundQueue {
    /// The queue never holds more than its capacity, and a queue of
    /// capacity zero cannot exist.
    pub open spec fn wf(self) -> bool {
        &&& 1 <= self.capacity
        &&& self.items@.len() <= self.capacity as nat
    }

    /// A non-blocking enqueue succeeds exactly when the queue is open and
    /// below capacity.
    pub open spec fn can_accept(self) -> bool {
        !self.closed && self.items@.len() < self.capacity as nat
    }

    pub fn new(capacity: usize) -> (q: OutboundQueue)
        requires
            1 <= capacity,
        ensures
            q.wf(),
            q@ == Seq::<Message>::empty(),
            q.capacity == capacity,
            !q.closed,
    {
        OutboundQueue { items: Vec::new(), capacity, closed: false }
    }

    pub fn len(&self) -> (n: usize)
        ensures
            n == self@.len(),
    {
        self.items.len()
    }

    pub fn queue_capacity(&self) -> (c: usize)
        ensures
            c == self.capacity,
    {
        self.capacity
    }

    pub fn is_closed(&self) -> (b: bool)
        ensures
            b == self.closed,
    {
        self.closed
    }

    /// Read access to the resident messages, front (next to be delivered)
    /// first.
    pub fn messages(&self) -> (v: &Vec<Message>)
        ensures
            v@ == self@,
    {
        &self.items
    }

    /// The non-blocking enqueue attempt: appends when open and below
    /// capacity, and otherwise returns the message with the reason, the
    /// queue untouched. Never suspends and never reorders.
    pub fn try_enqueue(&mut self, message: Message) -> (r: EnqueueStatus)
        requires
            old(self).wf(),
        ensures
            final(self).wf(),
            final(self).capacity == old(self).capacity,
            final(self).closed == old(self).closed,
            final(self)@ == spec_enqueue_contents(
                old(self)@,
                old(self).capacity as nat,
                old(self).closed,
                message,
            ),
            old(self).closed ==> (r matches EnqueueStatus::Closed(m) && m == message),
            !old(self).closed && old(self)@.len() >= old(self).capacity ==> (r matches EnqueueStatus::Full(m)
                && m == message),
            old(self).can_accept() ==> r is Enqueued && final(self)@ == old(self)@.push(message),
    {
        if self.closed {
            EnqueueStatus::Closed(message)
        } else if self.items.len() >= self.capacity {
            EnqueueStatus::Full(message)
        } else {
            self.items.push(message);
            EnqueueStatus::Enqueued
        }
    }

    /// Removes and returns the oldest resident message: first in, first
    /// out.
    pub fn dequeue(&mut self) -> (r: Option<Message>)
        requires
            old(self).wf(),
        ensures
            final(self).wf(),
            final(self).capacity == old(self).capacity,
            final(self).closed == old(self).closed,
            old(self)@.len() == 0 ==> r is None && final(self)@ == old(self)@,
            old(self)@.len() > 0 ==> r == Some(old(self)@.first()) && final(self)@ == old(
                self,
            )@.drop_first(),
    {
        if self.items.len() == 0 {
            None
        } else {
            let m = self.items.remove(0);
            proof {
                assert(self.items@ =~= old(self).items@.drop_first());
            }
            Some(m)
        }
    }

    /// Marks the consumer as gone; the contents stay as they are, and
    /// every later enqueue attempt is refused with `Closed`.
    pub fn close(&mut self)
        requires
            old(self).wf(),
        ensures
            final(self).wf(),
            final(self).capacity == old(self).capacity,
            final(self).closed,
            final(self)@ == old(self)@,
    {
        self.closed = true;
    }
}

/// FIFO delivery: offering `msgs` to an open queue with room for all of
/// them appends them in exactly the offered order, so the writer, which
/// always dequeues the front, delivers them in that same order.
pub proof fn lemma_fifo_order(s: Seq<Message>, capacity: nat, msgs: Seq<Message>)
    requires
        s.len() + msgs.len() <= capacity,
    ensures
        spec_enqueue_all(s, capacity, msgs) == s + msgs,
    decreases msgs.len(),
{
    if msgs.len() == 0 {
        assert(s + msgs =~= s);
    } else {
        lemma_fifo_order(s.push(msgs.first()), capacity, msgs.drop_first());
        assert(s.push(msgs.first()) + msgs.drop_first() =~= s + msgs);
    }
}

} // verus!
