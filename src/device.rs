//! The virtual network device: a FIFO of packets the protocol engine has
//! transmitted and a FIFO of synthesized datagrams waiting to be received.
use crate::bytes::append_bytes;
use crate::ipv4::{
    inbound_datagram, ip_payload, strip_ip_header, synthesize_inbound, IP_PROTOCOL_ICMP,
    IPV4_HEADER_LEN, MAX_DATAGRAM_LEN, MIN_INBOUND_LEN,
};
use std::collections::VecDeque;
use vstd::prelude::*;

verus! {

/// Largest packet the device carries.
pub const MAX_TRANSMISSION_UNIT: usize = 1500;

/// A queue of packets after one enqueue.
pub open spec fn enqueued(q: Seq<Seq<u8>>, p: Seq<u8>) -> Seq<Seq<u8>> {
    q.push(p)
}

/// The packet that leaves a queue on a dequeue, if any.
pub open spec fn dequeued_packet(q: Seq<Seq<u8>>) -> Option<Seq<u8>> {
    if q.len() == 0 {
        None
    } else {
        Some(q[0])
    }
}

/// A queue of packets after one dequeue.
pub open spec fn after_dequeue(q: Seq<Seq<u8>>) -> Seq<Seq<u8>> {
    if q.len() == 0 {
        q
    } else {
        q.drop_first()
    }
}

/// The Echo Reply that the in-memory loopback answers to a transmitted
/// datagram: where it holds an IPv4 and an ICMP header, is marked as ICMP and
/// is an Echo Request, the datagram with source and destination swapped, the
/// ICMP type set to Echo Reply and the ICMP checksum field cleared.
pub open spec fn loopback_reply(p: Seq<u8>) -> Option<Seq<u8>> {
    if p.len() >= MIN_INBOUND_LEN && p[9] == IP_PROTOCOL_ICMP && p[20] == 8 {
        Some(
            Seq::new(
                p.len(),
                |i: int|
                    if 12 <= i < 16 {
                        p[i + 4]
                    } else if 16 <= i < 20 {
                        p[i - 4]
                    } else if i == 20 || i == 22 || i == 23 {
                        0u8
                    } else {
                        p[i]
                    },
            ),
        )
    } else {
        None
    }
}

/// The Echo Reply that the in-memory loopback transmit queues after a
/// transmitted datagram: where it holds an IPv4 and an ICMP header, is marked
/// as ICMP and is an Echo Request, the datagram with source and destination
/// swapped, the ICMP type set to Echo Reply and the IPv4 header checksum
/// cleared.
pub open spec fn loopback_transmit_reply(p: Seq<u8>) -> Option<Seq<u8>> {
    if p.len() >= MIN_INBOUND_LEN && p[9] == IP_PROTOCOL_ICMP && p[20] == 8 {
        Some(
            Seq::new(
                p.len(),
                |i: int|
                    if 12 <= i < 16 {
                        p[i + 4]
                    } else if 16 <= i < 20 {
                        p[i - 4]
                    } else if i == 10 || i == 11 || i == 20 {
                        0u8
                    } else {
                        p[i]
                    },
            ),
        )
    } else {
        None
    }
}

/// `packet` with its IPv4 source and destination addresses swapped; it must
/// hold at least an IPv4 header.
fn swapped_addresses(packet: &[u8]) -> (r: Vec<u8>)
    requires
        packet@.len() >= IPV4_HEADER_LEN,
    ensures
        r@.len() == packet@.len(),
        forall|i: int|
            0 <= i < r@.len() ==> #[trigger] r@[i] == if 12 <= i < 16 {
                packet@[i + 4]
            } else if 16 <= i < 20 {
                packet@[i - 4]
            } else {
                packet@[i]
            },
{
    let n: usize = packet.len();
    assert(n == packet@.len());
    let mut reply: Vec<u8> = Vec::new();
    append_bytes(&mut reply, packet);
    let mut k: usize = 0;
    while k < 4
        invariant
            k <= 4,
            packet@.len() >= IPV4_HEADER_LEN,
            reply@.len() == packet@.len(),
            forall|i: int|
                0 <= i < reply@.len() ==> #[trigger] reply@[i] == if 12 <= i < 12 + k {
                    packet@[i + 4]
                } else if 16 <= i < 16 + k {
                    packet@[i - 4]
                } else {
                    packet@[i]
                },
        decreases 4 - k,
    {
        reply[12 + k] = packet[16 + k];
        reply[16 + k] = packet[12 + k];
        k = k + 1;
    }
    reply
}

/// Builds the Echo Reply that the in-memory loopback transmit queues, as
/// `loopback_transmit_reply` states.
pub fn loopback_echo_reply(packet: &[u8]) -> (r: Option<Vec<u8>>)
    ensures
        r is Some <==> loopback_transmit_reply(packet@) is Some,
        r matches Some(v) ==> loopback_transmit_reply(packet@) == Some(v@),
{
    if packet.len() < MIN_INBOUND_LEN || packet[9] != IP_PROTOCOL_ICMP
        || packet[IPV4_HEADER_LEN] != 8 {
        return None;
    }
    let mut reply = swapped_addresses(packet);
    reply[10] = 0;
    reply[11] = 0;
    reply[IPV4_HEADER_LEN] = 0;
    assert(reply@ =~= loopback_transmit_reply(packet@)->Some_0);
    Some(reply)
}

/// Builds the loopback Echo Reply to a transmitted datagram, as
/// `loopback_reply` states.
pub fn generate_icmp_reply(packet: &[u8]) -> (r: Option<Vec<u8>>)
    ensures
        r is Some <==> loopback_reply(packet@) is Some,
        r matches Some(v) ==> loopback_reply(packet@) == Some(v@),
{
    if packet.len() < MIN_INBOUND_LEN || packet[9] != IP_PROTOCOL_ICMP
        || packet[IPV4_HEADER_LEN] != 8 {
        return None;
    }
    let mut reply = swapped_addresses(packet);
    reply[IPV4_HEADER_LEN] = 0;
    reply[22] = 0;
    reply[23] = 0;
    assert(Some(reply@) == loopback_reply(packet@)) by {
        assert(reply@ =~= loopback_reply(packet@)->Some_0);
    }
    Some(reply)
}

/// The virtual device the protocol engine transmits to and receives from.
pub struct VirtualDevice {
    rx_queue: VecDeque<Vec<u8>>,
    tx_queue: VecDeque<Vec<u8>>,
}

impl VirtualDevice {
    /// Packets waiting to be received by the protocol engine, oldest first.
    pub closed spec fn inbound(&self) -> Seq<Seq<u8>> {
        self.rx_queue@.map_values(|p: Vec<u8>| p@)
    }

    /// Packets transmitted by the protocol engine and not yet sent, oldest first.
    pub closed spec fn outbound(&self) -> Seq<Seq<u8>> {
        self.tx_queue@.map_values(|p: Vec<u8>| p@)
    }

    /// A device with both queues empty.
    pub fn new() -> (r: VirtualDevice)
        ensures
            r.inbound() == Seq::<Seq<u8>>::empty(),
            r.outbound() == Seq::<Seq<u8>>::empty(),
    {
        let r = VirtualDevice { rx_queue: VecDeque::new(), tx_queue: VecDeque::new() };
        assert(r.inbound() =~= Seq::<Seq<u8>>::empty());
        assert(r.outbound() =~= Seq::<Seq<u8>>::empty());
        r
    }

    /// The largest packet the device carries.
    pub fn max_transmission_unit(&self) -> (r: usize)
        ensures
            r == MAX_TRANSMISSION_UNIT,
    {
        MAX_TRANSMISSION_UNIT
    }

    /// Appends a packet to the inbound queue.
    pub fn enqueue_rx_packet(&mut self, packet: Vec<u8>)
        ensures
            final(self).inbound() == enqueued(old(self).inbound(), packet@),
            final(self).outbound() == old(self).outbound(),
    {
        let ghost before = self.rx_queue@;
        self.rx_queue.push_back(packet);
        assert(self.rx_queue@.map_values(|p: Vec<u8>| p@) =~= before.map_values(
            |p: Vec<u8>| p@,
        ).push(packet@));
    }

    /// Takes the oldest packet of the inbound queue, if any.
    pub fn dequeue_rx_packet(&mut self) -> (r: Option<Vec<u8>>)
        ensures
            r is Some <==> dequeued_packet(old(self).inbound()) is Some,
            r matches Some(p) ==> dequeued_packet(old(self).inbound()) == Some(p@),
            final(self).inbound() == after_dequeue(old(self).inbound()),
            final(self).outbound() == old(self).outbound(),
    {
        let ghost before = self.rx_queue@;
        let r = self.rx_queue.pop_front();
        assert(self.rx_queue@.map_values(|p: Vec<u8>| p@) =~= after_dequeue(
            before.map_values(|p: Vec<u8>| p@),
        ));
        r
    }

    /// Appends a transmitted packet to the outbound queue.
    pub fn enqueue_tx_packet(&mut self, packet: Vec<u8>)
        ensures
            final(self).outbound() == enqueued(old(self).outbound(), packet@),
            final(self).inbound() == old(self).inbound(),
    {
        let ghost before = self.tx_queue@;
        self.tx_queue.push_back(packet);
        assert(self.tx_queue@.map_values(|p: Vec<u8>| p@) =~= before.map_values(
            |p: Vec<u8>| p@,
        ).push(packet@));
    }

    /// Appends a transmitted packet to the outbound queue; the same as
    /// `enqueue_tx_packet`.
    pub fn queue_tx_packet(&mut self, packet: Vec<u8>)
        ensures
            final(self).outbound() == enqueued(old(self).outbound(), packet@),
            final(self).inbound() == old(self).inbound(),
    {
        self.enqueue_tx_packet(packet);
    }

    /// Takes the oldest packet of the outbound queue, if any.
    pub fn dequeue_tx_packet(&mut self) -> (r: Option<Vec<u8>>)
        ensures
            r is Some <==> dequeued_packet(old(self).outbound()) is Some,
            r matches Some(p) ==> dequeued_packet(old(self).outbound()) == Some(p@),
            final(self).outbound() == after_dequeue(old(self).outbound()),
            final(self).inbound() == old(self).inbound(),
    {
        let ghost before = self.tx_queue@;
        let r = self.tx_queue.pop_front();
        assert(self.tx_queue@.map_values(|p: Vec<u8>| p@) =~= after_dequeue(
            before.map_values(|p: Vec<u8>| p@),
        ));
        r
    }

    /// Takes the oldest transmitted packet and returns what goes to the raw
    /// transport for it: the packet without its IPv4 header.
    pub fn next_outbound_payload(&mut self) -> (r: Option<Vec<u8>>)
        ensures
            r is Some <==> old(self).outbound().len() > 0,
            r matches Some(p) ==> p@ == ip_payload(old(self).outbound()[0]),
            final(self).outbound() == after_dequeue(old(self).outbound()),
            final(self).inbound() == old(self).inbound(),
    {
        match self.dequeue_tx_packet() {
            Some(packet) => Some(strip_ip_header(packet.as_slice())),
            None => None,
        }
    }

    /// Takes in a datagram read from the raw transport: where it is ICMP and
    /// long enough, its synthetic datagram joins the inbound queue. Returns
    /// whether it did.
    pub fn accept_received(&mut self, received: &[u8]) -> (r: bool)
        requires
            received@.len() <= MAX_DATAGRAM_LEN,
        ensures
            r == inbound_datagram(received@) is Some,
            final(self).inbound() == match inbound_datagram(received@) {
                Some(d) => enqueued(old(self).inbound(), d),
                None => old(self).inbound(),
            },
            final(self).outbound() == old(self).outbound(),
    {
        match synthesize_inbound(received) {
            Some(d) => {
                self.enqueue_rx_packet(d);
                true
            },
            None => false,
        }
    }

    /// Transmits through the in-memory loopback: the packet joins the inbound
    /// queue, followed by its loopback Echo Reply where it has one.
    pub fn loopback_transmit(&mut self, packet: Vec<u8>)
        ensures
            final(self).inbound() == match loopback_transmit_reply(packet@) {
                Some(reply) => enqueued(enqueued(old(self).inbound(), packet@), reply),
                None => enqueued(old(self).inbound(), packet@),
            },
            final(self).outbound() == old(self).outbound(),
    {
        let reply = loopback_echo_reply(packet.as_slice());
        self.enqueue_rx_packet(packet);
        match reply {
            Some(r) => self.enqueue_rx_packet(r),
            None => {},
        }
    }
}

impl Default for VirtualDevice {
    fn default() -> (r: VirtualDevice)
        ensures
            r.inbound() == Seq::<Seq<u8>>::empty(),
            r.outbound() == Seq::<Seq<u8>>::empty(),
    {
        VirtualDevice::new()
    }
}

/// Packets enqueued one after another onto an empty queue come out of it in the
/// order they went in.
pub proof fn lemma_queue_fifo(first: Seq<u8>, second: Seq<u8>, third: Seq<u8>)
    ensures
        ({
            let q = enqueued(enqueued(enqueued(Seq::empty(), first), second), third);
            &&& dequeued_packet(q) == Some(first)
            &&& dequeued_packet(after_dequeue(q)) == Some(second)
            &&& dequeued_packet(after_dequeue(after_dequeue(q))) == Some(third)
            &&& after_dequeue(after_dequeue(after_dequeue(q))) == Seq::<Seq<u8>>::empty()
        }),
{
    let q = enqueued(enqueued(enqueued(Seq::empty(), first), second), third);
    assert(after_dequeue(q) =~= seq![second, third]);
    assert(after_dequeue(after_dequeue(q)) =~= seq![third]);
    assert(after_dequeue(after_dequeue(after_dequeue(q))) =~= Seq::<Seq<u8>>::empty());
}

} // verus!
