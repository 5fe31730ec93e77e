//! Bounded first-in, first-out queues of fixed-size packets.

use std::collections::VecDeque;
use vstd::prelude::*;
use crate::error::DanError;

verus! {

/// What the inbound pump does with a valid packet that finds its queue full.
#[derive(Clone, Copy, Debug, PartialEq, Eq, Structural)]
pub enum OverflowPolicy {
    /// The arriving packet is dropped.
    DropNewest,
    /// The oldest queued packet is dropped to make room for the arriving one.
    EvictOldest,
}

impl Default for OverflowPolicy {
    /// A full queue refuses what arrives unless it is told otherwise.
    fn default() -> (policy: OverflowPolicy)
        ensures
            policy == OverflowPolicy::DropNewest,
    {
        OverflowPolicy::DropNewest
    }
}

/// A bounded queue as a mathematical value: its packets, oldest first, the
/// most it holds, and the size of every packet in it.
pub struct QueueModel {
    pub packets: Seq<Seq<u8>>,
    pub capacity: usize,
    pub packet_size: usize,
}

impl QueueModel {
    /// The queue holds no more than its capacity, and every packet in it has
    /// the queue's packet size.
    pub open spec fn wf(self) -> bool {
        &&& self.packets.len() <= self.capacity
        &&& forall|i: int| 0 <= i < self.packets.len() ==> (#[trigger] self.packets[i]).len()
            == self.packet_size
    }

    /// The empty queue of the given bound and packet size.
    pub open spec fn empty(capacity: usize, packet_size: usize) -> QueueModel {
        QueueModel { packets: Seq::empty(), capacity, packet_size }
    }

    /// The queue holds nothing.
    pub open spec fn is_empty(self) -> bool {
        self.packets.len() == 0
    }

    /// The queue holds all it can.
    pub open spec fn is_full(self) -> bool {
        self.packets.len() >= self.capacity
    }

    /// Whether the queue takes the packet: it has the right size and there is
    /// room for it.
    pub open spec fn accepts(self, packet: Seq<u8>) -> bool {
        packet.len() == self.packet_size && !self.is_full()
    }

    /// The queue after the packet was offered to it: with the packet at its
    /// back if the queue takes it, unchanged if not.
    pub open spec fn push(self, packet: Seq<u8>) -> QueueModel {
        if self.accepts(packet) {
            QueueModel { packets: self.packets.push(packet), ..self }
        } else {
            self
        }
    }

    /// The oldest packet, if there is one.
    pub open spec fn front(self) -> Option<Seq<u8>> {
        if self.is_empty() {
            None
        } else {
            Some(self.packets[0])
        }
    }

    /// The queue without its oldest packet.
    pub open spec fn pop(self) -> QueueModel {
        if self.is_empty() {
            self
        } else {
            QueueModel { packets: self.packets.drop_first(), ..self }
        }
    }

    /// Whether the arrival of a packet under the given policy drops the
    /// oldest packet of the queue.
    pub open spec fn evicts(self, packet: Seq<u8>, policy: OverflowPolicy) -> bool {
        &&& policy == OverflowPolicy::EvictOldest
        &&& self.is_full()
        &&& !self.is_empty()
        &&& packet.len() == self.packet_size
    }

    /// Whether a packet that arrives under the given policy is queued.
    pub open spec fn keeps(self, packet: Seq<u8>, policy: OverflowPolicy) -> bool {
        if self.evicts(packet, policy) {
            self.pop().accepts(packet)
        } else {
            self.accepts(packet)
        }
    }

    /// The queue after a packet arrived under the given policy. A packet of
    /// the right size that finds room is queued. One that finds the queue
    /// full is dropped, or the oldest packet is dropped and the arriving one
    /// queued; a queue of capacity zero keeps nothing either way. A packet of
    /// the wrong size changes nothing.
    pub open spec fn offer(self, packet: Seq<u8>, policy: OverflowPolicy) -> QueueModel {
        if policy == OverflowPolicy::EvictOldest && self.is_full() && packet.len()
            == self.packet_size {
            self.pop().push(packet)
        } else {
            self.push(packet)
        }
    }
}

/// A bounded queue of packets of one size.
#[derive(Debug)]
pub struct PacketQueue {
    items: VecDeque<Vec<u8>>,
    capacity: usize,
    packet_size: usize,
}

impl View for PacketQueue {
    type V = QueueModel;

    closed spec fn view(&self) -> QueueModel {
        QueueModel {
            packets: self.items@.map_values(|packet: Vec<u8>| packet@),
            capacity: self.capacity,
            packet_size: self.packet_size,
        }
    }
}

impl PacketQueue {
    /// An empty queue that holds up to `capacity` packets of `packet_size`
    /// bytes each.
    pub fn new(capacity: usize, packet_size: usize) -> (queue: PacketQueue)
        ensures
            queue@ == QueueModel::empty(capacity, packet_size),
            queue@.wf(),
    {
        let queue = PacketQueue { items: VecDeque::new(), capacity, packet_size };
        assert(queue@.packets =~= Seq::empty());
        queue
    }

    /// The number of packets in the queue.
    pub fn len(&self) -> (n: usize)
        ensures
            n == self@.packets.len(),
    {
        self.items.len()
    }

    /// The most packets the queue holds.
    pub fn capacity(&self) -> (n: usize)
        ensures
            n == self@.capacity,
    {
        self.capacity
    }

    /// The size of every packet in the queue.
    pub fn packet_size(&self) -> (n: usize)
        ensures
            n == self@.packet_size,
    {
        self.packet_size
    }

    /// Whether the queue holds nothing.
    pub fn is_empty(&self) -> (b: bool)
        ensures
            b == self@.is_empty(),
    {
        self.items.len() == 0
    }

    /// Whether the queue holds all it can.
    pub fn is_full(&self) -> (b: bool)
        ensures
            b == self@.is_full(),
    {
        self.items.len() >= self.capacity
    }

    /// Offers a packet to the back of the queue without waiting. The packet
    /// is refused if it does not have the queue's packet size or if the queue
    /// is full; the queue is then left as it was.
    pub fn try_send(&mut self, packet: Vec<u8>) -> (result: Result<(), DanError>)
        ensures
            final(self)@ == old(self)@.push(packet@),
            result == if old(self)@.accepts(packet@) {
                Ok::<(), DanError>(())
            } else {
                Err::<(), DanError>(DanError::QueueFull)
            },
    {
        if packet.len() != self.packet_size || self.items.len() >= self.capacity {
            return Err(DanError::QueueFull);
        }
        self.items.push_back(packet);
        assert(self@.packets =~= old(self)@.packets.push(packet@));
        Ok(())
    }

    /// Takes the oldest packet from the queue without waiting.
    pub fn try_recv(&mut self) -> (result: Option<Vec<u8>>)
        ensures
            final(self)@ == old(self)@.pop(),
            match result {
                Some(packet) => old(self)@.front() == Some(packet@),
                None => old(self)@.front().is_none(),
            },
    {
        let result = self.items.pop_front();
        assert(self@.packets =~= old(self)@.pop().packets);
        proof {
            if result.is_some() {
                assert(old(self)@.packets[0] == result.unwrap()@);
            }
        }
        result
    }

    /// Takes in a packet that arrived from the network, under the given
    /// policy for a full queue.
    pub fn offer(&mut self, packet: Vec<u8>, policy: OverflowPolicy)
        ensures
            final(self)@ == old(self)@.offer(packet@, policy),
    {
        match policy {
            OverflowPolicy::EvictOldest => {
                if self.is_full() && packet.len() == self.packet_size {
                    let _ = self.try_recv();
                }
            },
            OverflowPolicy::DropNewest => {},
        }
        let _ = self.try_send(packet);
    }
}

/// A well-formed queue stays well formed when a packet is offered to it, taken
/// from it or arrives at it.
pub proof fn lemma_queue_stays_well_formed(
    queue: QueueModel,
    packet: Seq<u8>,
    policy: OverflowPolicy,
)
    requires
        queue.wf(),
    ensures
        queue.push(packet).wf(),
        queue.pop().wf(),
        queue.offer(packet, policy).wf(),
{
    let popped = queue.pop();
    assert(popped.wf()) by {
        if !queue.is_empty() {
            assert forall|i: int| 0 <= i < popped.packets.len() implies (
            #[trigger] popped.packets[i]).len() == popped.packet_size by {
                assert(popped.packets[i] == queue.packets[i + 1]);
            }
        }
    }
    assert forall|q: QueueModel| q.wf() implies (#[trigger] q.push(packet)).wf() by {
        let pushed = q.push(packet);
        if q.accepts(packet) {
            assert forall|i: int| 0 <= i < pushed.packets.len() implies (
            #[trigger] pushed.packets[i]).len() == pushed.packet_size by {
                if i < q.packets.len() {
                    assert(pushed.packets[i] == q.packets[i]);
                }
            }
        }
    }
    assert(queue.push(packet).wf());
    assert(popped.push(packet).wf());
}

/// The arrival of a packet is the loss of the oldest packet, if the arrival
/// drops one, followed by the queuing of the arriving packet, if it is kept.
/// A well-formed queue that is not of capacity zero keeps every packet of the
/// right size that arrives under the evicting policy.
pub proof fn lemma_offer_in_steps(queue: QueueModel, packet: Seq<u8>, policy: OverflowPolicy)
    ensures
        queue.offer(packet, policy).packets == {
            let rest = if queue.evicts(packet, policy) {
                queue.packets.drop_first()
            } else {
                queue.packets
            };
            if queue.keeps(packet, policy) {
                rest.push(packet)
            } else {
                rest
            }
        },
        queue.wf() && queue.capacity > 0 && packet.len() == queue.packet_size && policy
            == OverflowPolicy::EvictOldest ==> queue.keeps(packet, policy),
{
}

} // verus!
