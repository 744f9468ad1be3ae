use vstd::prelude::*;

use crate::address::PeerAddress;
use crate::message::Message;
use crate::outcome::EnqueueStatus;
use crate::queue::spec_enqueue_contents;
use crate::queue::OutboundQueue;

verus! {

/// One live connection's routing entry: the peer's address and the
/// bounded queue its writer drains.
pub struct RegistryEntry {
    pub address: PeerAddress,
    pub queue: OutboundQueue,
}

/// The channel registry: the mapping from peer address to that peer's
/// outbound queue. At most one live entry per address; entries are
/// created and removed only by the connection-lifecycle collaborator,
/// never by the dispatcher, which reads it per send.
pub struct Registry {
    pub entries: Vec<RegistryEntry>,
}

impl Registry {
    /// Whether a peer at address `a` has a live entry.
    pub open spec fn contains_addr(self, a: PeerAddress) -> bool {
        exists|i: int| 0 <= i < self.entries@.len() && self.entries@[i].address == a
    }

    /// The position of `a`'s entry; meaningful only under `addrs_unique`
    /// when `contains_addr(a)` holds.
    pub open spec fn index_of(self, a: PeerAddress) -> int {
        choose|i: int| 0 <= i < self.entries@.len() && self.entries@[i].address == a
    }

    /// The queue registered for `a`; meaningful only when
    /// `contains_addr(a)` holds.
    pub open spec fn queue_at(self, a: PeerAddress) -> OutboundQueue {
        self.entries@[self.index_of(a)].queue
    }

    /// At most one live entry per address.
    pub open spec fn addrs_unique(self) -> bool {
        forall|i: int, j: int|
            0 <= i < j < self.entries@.len() ==> self.entries@[i].address != self.entries@[
                j
            ].address
    }

    pub open spec fn wf(self) -> bool {
        &&& self.addrs_unique()
        &&& forall|i: int| 0 <= i < self.entries@.len() ==> self.entries@[i].queue.wf()
    }

    /// An entry seen at position `j` is the one entry for its address.
    pub proof fn lemma_witness(self, b: PeerAddress, j: int)
        requires
            self.addrs_unique(),
            0 <= j < self.entries@.len(),
            self.entries@[j].address == b,
        ensures
            self.contains_addr(b),
            self.index_of(b) == j,
            self.queue_at(b) == self.entries@[j].queue,
    {
        assert(self.contains_addr(b));
        let i = self.index_of(b);
        assert(0 <= i < self.entries@.len() && self.entries@[i].address == b);
        if i < j {
            assert(self.entries@[i].address != self.entries@[j].address);
        } else if j < i {
            assert(self.entries@[j].address != self.entries@[i].address);
        }
    }

    /// Replacing the entry at `a`'s position, address kept, leaves every
    /// other peer's presence and queue exactly as they were.
    proof fn lemma_update_at(r1: Registry, r2: Registry, i: int, a: PeerAddress)
        requires
            r1.wf(),
            0 <= i < r1.entries@.len(),
            r1.entries@[i].address == a,
            r2.entries@.len() == r1.entries@.len(),
            forall|j: int| 0 <= j < r1.entries@.len() && j != i ==> r2.entries@[j] == r1.entries@[j],
            r2.entries@[i].address == a,
            r2.entries@[i].queue.wf(),
        ensures
            r2.wf(),
            r1.contains_addr(a),
            r1.index_of(a) == i,
            r1.queue_at(a) == r1.entries@[i].queue,
            r2.contains_addr(a),
            r2.index_of(a) == i,
            r2.queue_at(a) == r2.entries@[i].queue,
            forall|b: PeerAddress| #![auto]
                b != a ==> (r2.contains_addr(b) <==> r1.contains_addr(b)),
            forall|b: PeerAddress| #![auto]
                b != a && r1.contains_addr(b) ==> r2.queue_at(b) == r1.queue_at(b),
    {
        assert forall|p: int, q: int|
            0 <= p < q < r2.entries@.len() implies r2.entries@[p].address != r2.entries@[
            q
        ].address by {
            assert(r1.entries@[p].address != r1.entries@[q].address);
            assert(r2.entries@[p].address == r1.entries@[p].address);
            assert(r2.entries@[q].address == r1.entries@[q].address);
        }
        assert forall|j: int| 0 <= j < r2.entries@.len() implies r2.entries@[j].queue.wf() by {
            if j != i {
                assert(r2.entries@[j] == r1.entries@[j]);
            }
        }
        r1.lemma_witness(a, i);
        r2.lemma_witness(a, i);
        assert forall|b: PeerAddress| b != a && r1.contains_addr(b) implies r2.contains_addr(b)
            && r2.queue_at(b) == r1.queue_at(b) by {
            r1.lemma_witness(b, r1.index_of(b));
            let j = r1.index_of(b);
            assert(j != i);
            assert(r2.entries@[j] == r1.entries@[j]);
            r2.lemma_witness(b, j);
        }
        assert forall|b: PeerAddress| b != a && r2.contains_addr(b) implies r1.contains_addr(
            b,
        ) by {
            let j = r2.index_of(b);
            assert(0 <= j < r2.entries@.len() && r2.entries@[j].address == b);
            assert(j != i);
            assert(r1.entries@[j] == r2.entries@[j]);
            r1.lemma_witness(b, j);
        }
    }

    /// An empty registry: no peer is connected.
    pub fn new() -> (r: Registry)
        ensures
            r.wf(),
            r.entries@.len() == 0,
            forall|a: PeerAddress| !r.contains_addr(a),
    {
        Registry { entries: Vec::new() }
    }

    /// The position of `a`'s entry, if one is live.
    pub fn find(&self, a: PeerAddress) -> (r: Option<usize>)
        requires
            self.addrs_unique(),
        ensures
            match r {
                Some(i) => self.contains_addr(a) && i == self.index_of(a) && i
                    < self.entries@.len(),
                None => !self.contains_addr(a),
            },
    {
        let n = self.entries.len();
        let mut i: usize = 0;
        while i < n
            invariant
                n == self.entries@.len(),
                i <= n,
                self.addrs_unique(),
                forall|j: int| 0 <= j < i ==> self.entries@[j].address != a,
            decreases n - i,
        {
            if self.entries[i].address == a {
                proof {
                    self.lemma_witness(a, i as int);
                }
                return Some(i);
            }
            i = i + 1;
        }
        None
    }

    /// The registry's read side, as the dispatcher uses it: the queue
    /// registered for `a`, if any.
    pub fn get_queue(&self, a: PeerAddress) -> (r: Option<&OutboundQueue>)
        requires
            self.addrs_unique(),
        ensures
            match r {
                Some(q) => self.contains_addr(a) && *q == self.queue_at(a),
                None => !self.contains_addr(a),
            },
    {
        match self.find(a) {
            Some(i) => Some(&self.entries[i].queue),
            None => None,
        }
    }

    /// Installs a fresh open queue of the given capacity for a newly
    /// connected peer; the connection-lifecycle collaborator calls this
    /// when a handshake completes. A stale entry for the same address is
    /// replaced. Every other peer's entry is left untouched.
    pub fn register(&mut self, a: PeerAddress, capacity: usize)
        requires
            old(self).wf(),
            1 <= capacity,
        ensures
            final(self).wf(),
            final(self).contains_addr(a),
            final(self).queue_at(a).capacity == capacity,
            !final(self).queue_at(a).closed,
            final(self).queue_at(a)@ == Seq::<Message>::empty(),
            forall|b: PeerAddress| #![auto]
                b != a ==> (final(self).contains_addr(b) <==> old(self).contains_addr(b)),
            forall|b: PeerAddress| #![auto]
                b != a && old(self).contains_addr(b) ==> final(self).queue_at(b) == old(self).queue_at(b),
    {
        let fresh = OutboundQueue::new(capacity);
        let found = self.find(a);
        match found {
            Some(i) => {
                self.entries[i] = RegistryEntry { address: a, queue: fresh };
                proof {
                    Self::lemma_update_at(*old(self), *self, i as int, a);
                }
            },
            None => {
                self.entries.push(RegistryEntry { address: a, queue: fresh });
                proof {
                    let n = old(self).entries@.len() as int;
                    assert(self.entries@ == old(self).entries@.push(
                        RegistryEntry { address: a, queue: fresh },
                    ));
                    assert forall|p: int, q: int|
                        0 <= p < q < self.entries@.len() implies self.entries@[p].address
                        != self.entries@[q].address by {
                        if q < n {
                            assert(old(self).entries@[p].address != old(self).entries@[q].address);
                        } else {
                            assert(self.entries@[q].address == a);
                            if old(self).entries@[p].address == a {
                                assert(old(self).contains_addr(a));
                            }
                        }
                    }
                    self.lemma_witness(a, n);
                    assert forall|b: PeerAddress| b != a && old(self).contains_addr(b) implies self.contains_addr(
                        b,
                    ) && self.queue_at(b) == old(self).queue_at(b) by {
                        old(self).lemma_witness(b, old(self).index_of(b));
                        let j = old(self).index_of(b);
                        self.lemma_witness(b, j);
                    }
                    assert forall|b: PeerAddress| b != a && self.contains_addr(b) implies old(
                        self,
                    ).contains_addr(b) by {
                        let j = self.index_of(b);
                        assert(0 <= j < self.entries@.len() && self.entries@[j].address == b);
                        assert(j != n);
                        old(self).lemma_witness(b, j);
                    }
                }
            },
        }
    }

    /// The dispatcher's non-blocking enqueue against `a`'s queue. With no
    /// live entry the message comes back in `Err` and nothing changes;
    /// otherwise the queue takes exactly one enqueue step and every other
    /// peer's entry is left untouched, whatever the state of `a`'s queue.
    pub fn try_enqueue_at(&mut self, a: PeerAddress, message: Message) -> (r: Result<
        EnqueueStatus,
        Message,
    >)
        requires
            old(self).wf(),
        ensures
            final(self).wf(),
            !old(self).contains_addr(a) ==> r == Err::<EnqueueStatus, Message>(message) && final(self).entries@ == old(self).entries@,
            old(self).contains_addr(a) ==> ({
                let q0 = old(self).queue_at(a);
                let q1 = final(self).queue_at(a);
                &&& final(self).contains_addr(a)
                &&& q1.capacity == q0.capacity
                &&& q1.closed == q0.closed
                &&& q1@ == spec_enqueue_contents(q0@, q0.capacity as nat, q0.closed, message)
                &&& (q0.closed ==> (r matches Ok(s) && (s matches EnqueueStatus::Closed(m) && m
                    == message)))
                &&& (!q0.closed && q0@.len() >= q0.capacity ==> (r matches Ok(s) && (s matches EnqueueStatus::Full(
                    m,
                ) && m == message)))
                &&& (q0.can_accept() ==> r == Ok::<EnqueueStatus, Message>(
                    EnqueueStatus::Enqueued,
                ) && q1@ == q0@.push(message))
            }),
            forall|b: PeerAddress| #![auto]
                b != a ==> (final(self).contains_addr(b) <==> old(self).contains_addr(b)),
            forall|b: PeerAddress| #![auto]
                b != a && old(self).contains_addr(b) ==> final(self).queue_at(b) == old(self).queue_at(b),
    {
        let found = self.find(a);
        match found {
            Some(i) => {
                let entry = &mut self.entries[i];
                let r = entry.queue.try_enqueue(message);
                proof {
                    Self::lemma_update_at(*old(self), *self, i as int, a);
                }
                Ok(r)
            },
            None => Err(message),
        }
    }

    /// The writer side: removes the oldest message queued for `a`, if the
    /// peer is live and has one. Every other peer's entry is left
    /// untouched.
    pub fn dequeue_at(&mut self, a: PeerAddress) -> (r: Option<Message>)
        requires
            old(self).wf(),
        ensures
            final(self).wf(),
            !old(self).contains_addr(a) ==> r is None && final(self).entries@ == old(
                self,
            ).entries@,
            old(self).contains_addr(a) ==> ({
                let q0 = old(self).queue_at(a);
                let q1 = final(self).queue_at(a);
                &&& final(self).contains_addr(a)
                &&& q1.capacity == q0.capacity
                &&& q1.closed == q0.closed
                &&& (q0@.len() == 0 ==> r is None && q1@ == q0@)
                &&& (q0@.len() > 0 ==> r == Some(q0@.first()) && q1@ == q0@.drop_first())
            }),
            forall|b: PeerAddress| #![auto]
                b != a ==> (final(self).contains_addr(b) <==> old(self).contains_addr(b)),
            forall|b: PeerAddress| #![auto]
                b != a && old(self).contains_addr(b) ==> final(self).queue_at(b) == old(self).queue_at(b),
    {
        let found = self.find(a);
        match found {
            Some(i) => {
                let entry = &mut self.entries[i];
                let r = entry.queue.dequeue();
                proof {
                    Self::lemma_update_at(*old(self), *self, i as int, a);
                }
                r
            },
            None => None,
        }
    }

    /// Marks `a`'s queue as closed, as the consumer's disappearance does:
    /// resident messages stay, further enqueues are refused. Every other
    /// peer's entry is left untouched.
    pub fn close_queue(&mut self, a: PeerAddress)
        requires
            old(self).wf(),
        ensures
            final(self).wf(),
            !old(self).contains_addr(a) ==> final(self).entries@ == old(self).entries@,
            old(self).contains_addr(a) ==> ({
                let q0 = old(self).queue_at(a);
                let q1 = final(self).queue_at(a);
                &&& final(self).contains_addr(a)
                &&& q1.capacity == q0.capacity
                &&& q1.closed
                &&& q1@ == q0@
            }),
            forall|b: PeerAddress| #![auto]
                b != a ==> (final(self).contains_addr(b) <==> old(self).contains_addr(b)),
            forall|b: PeerAddress| #![auto]
                b != a && old(self).contains_addr(b) ==> final(self).queue_at(b) == old(self).queue_at(b),
    {
        let found = self.find(a);
        match found {
            Some(i) => {
                let entry = &mut self.entries[i];
                entry.queue.close();
                proof {
                    Self::lemma_update_at(*old(self), *self, i as int, a);
                }
            },
            None => {},
        }
    }

    /// Removes `a`'s entry on connection teardown, if one is live. Every
    /// other peer's entry is left untouched.
    pub fn deregister(&mut self, a: PeerAddress)
        requires
            old(self).wf(),
        ensures
            final(self).wf(),
            !final(self).contains_addr(a),
            forall|b: PeerAddress| #![auto]
                b != a ==> (final(self).contains_addr(b) <==> old(self).contains_addr(b)),
            forall|b: PeerAddress| #![auto]
                b != a && old(self).contains_addr(b) ==> final(self).queue_at(b) == old(self).queue_at(b),
    {
        let found = self.find(a);
        match found {
            Some(i) => {
                self.entries.remove(i);
                proof {
                    let n = old(self).entries@.len() as int;
                    let s1 = old(self).entries@;
                    let s2 = self.entries@;
                    assert(s2 == s1.remove(i as int));
                    assert forall|j: int| 0 <= j < s2.len() implies (s2[j] == if j < i {
                        s1[j]
                    } else {
                        s1[j + 1]
                    }) by {}
                    assert forall|p: int, q: int|
                        0 <= p < q < s2.len() implies s2[p].address != s2[q].address by {
                        let p1: int = if p < i {
                            p
                        } else {
                            p + 1
                        };
                        let q1: int = if q < i {
                            q
                        } else {
                            q + 1
                        };
                        assert(s1[p1].address != s1[q1].address);
                    }
                    assert forall|j: int| 0 <= j < s2.len() implies s2[j].queue.wf() by {}
                    if self.contains_addr(a) {
                        let j = self.index_of(a);
                        assert(0 <= j < s2.len() && s2[j].address == a);
                        let j1: int = if j < i {
                            j
                        } else {
                            j + 1
                        };
                        assert(s1[j1].address == a);
                        old(self).lemma_witness(a, i as int);
                        old(self).lemma_witness(a, j1);
                        assert(false);
                    }
                    assert forall|b: PeerAddress| b != a && old(self).contains_addr(b) implies self.contains_addr(
                        b,
                    ) && self.queue_at(b) == old(self).queue_at(b) by {
                        old(self).lemma_witness(b, old(self).index_of(b));
                        let j = old(self).index_of(b);
                        assert(j != i);
                        let j2: int = if j < i {
                            j
                        } else {
                            j - 1
                        };
                        assert(s2[j2] == s1[j]);
                        self.lemma_witness(b, j2);
                    }
                    assert forall|b: PeerAddress| b != a && self.contains_addr(b) implies old(
                        self,
                    ).contains_addr(b) by {
                        let j = self.index_of(b);
                        assert(0 <= j < s2.len() && s2[j].address == b);
                        let j1: int = if j < i {
                            j
                        } else {
                            j + 1
                        };
                        old(self).lemma_witness(b, j1);
                    }
                }
            },
            None => {},
        }
    }
}

} // verus!
