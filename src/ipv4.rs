//! The minimal synthetic IPv4 envelope: built around each received ICMP
//! message for the protocol engine, and stripped from each transmitted one
//! before it reaches the raw transport.
use crate::bytes::{append_bytes, high_byte, low_byte};
use vstd::prelude::*;

verus! {

/// Length of an IPv4 header without options.
pub const IPV4_HEADER_LEN: usize = 20;

/// IP protocol number of ICMP.
pub const IP_PROTOCOL_ICMP: u8 = 1;

/// Version and header-length byte of an IPv4 header without options.
pub const IPV4_VERSION_IHL: u8 = 0x45;

/// Largest datagram that the total-length field can state.
pub const MAX_DATAGRAM_LEN: usize = 65535;

/// Shortest received datagram that is taken in: an IPv4 header and an ICMP header.
pub const MIN_INBOUND_LEN: usize = 28;

/// The header of a synthetic datagram of `total_len` bytes: version 4, five
/// words of header, protocol ICMP, no checksum.
pub open spec fn ipv4_header(total_len: u16, ttl: u8, src: Seq<u8>, dst: Seq<u8>) -> Seq<u8> {
    seq![
        IPV4_VERSION_IHL,
        0u8,
        (total_len / 256) as u8,
        (total_len % 256) as u8,
        0u8,
        0u8,
        0u8,
        0u8,
        ttl,
        IP_PROTOCOL_ICMP,
        0u8,
        0u8,
    ] + src + dst
}

/// The synthetic datagram that carries `payload` from `src` to `dst`.
pub open spec fn synthesized_datagram(ttl: u8, src: Seq<u8>, dst: Seq<u8>, payload: Seq<u8>) -> Seq<
    u8,
> {
    ipv4_header((IPV4_HEADER_LEN + payload.len()) as u16, ttl, src, dst) + payload
}

/// Header length in bytes that the first byte of an IPv4 header states.
pub open spec fn stated_header_len(first: u8) -> nat {
    (first % 16) as nat * 4
}

/// What is forwarded to the raw transport for a transmitted packet: the part
/// after the header where the packet starts like an IPv4 header whose stated
/// length fits in it, and otherwise the whole packet.
pub open spec fn ip_payload(p: Seq<u8>) -> Seq<u8> {
    if p.len() > 0 && p[0] / 16 == 4 && stated_header_len(p[0]) <= p.len() {
        p.subrange(stated_header_len(p[0]) as int, p.len() as int)
    } else {
        p
    }
}

/// What a received datagram becomes in the inbound queue: where it holds at
/// least an IPv4 and an ICMP header and is marked as ICMP, a synthetic
/// datagram with its TTL, addresses and ICMP part; otherwise nothing.
pub open spec fn inbound_datagram(r: Seq<u8>) -> Option<Seq<u8>> {
    if r.len() >= MIN_INBOUND_LEN && r[9] == IP_PROTOCOL_ICMP {
        Some(
            synthesized_datagram(
                r[8],
                r.subrange(12, 16),
                r.subrange(16, 20),
                r.subrange(IPV4_HEADER_LEN as int, r.len() as int),
            ),
        )
    } else {
        None
    }
}

/// Builds the synthetic datagram that carries `payload` from `src` to `dst`.
pub fn synthesize_datagram(ttl: u8, src: &[u8], dst: &[u8], payload: &[u8]) -> (r: Vec<u8>)
    requires
        src@.len() == 4,
        dst@.len() == 4,
        payload@.len() + IPV4_HEADER_LEN <= MAX_DATAGRAM_LEN,
    ensures
        r@ == synthesized_datagram(ttl, src@, dst@, payload@),
{
    let total = (IPV4_HEADER_LEN + payload.len()) as u16;
    let mut d: Vec<u8> = vec![
        IPV4_VERSION_IHL,
        0,
        high_byte(total),
        low_byte(total),
        0,
        0,
        0,
        0,
        ttl,
        IP_PROTOCOL_ICMP,
        0,
        0,
    ];
    append_bytes(&mut d, src);
    append_bytes(&mut d, dst);
    append_bytes(&mut d, payload);
    assert(d@ =~= synthesized_datagram(ttl, src@, dst@, payload@));
    d
}

/// Strips the IPv4 header from a transmitted packet, as `ip_payload` states.
pub fn strip_ip_header(packet: &[u8]) -> (r: Vec<u8>)
    ensures
        r@ == ip_payload(packet@),
{
    let mut out: Vec<u8> = Vec::new();
    if packet.len() > 0 {
        let first = packet[0];
        assert(first >> 4 == first / 16) by (bit_vector);
        assert(first & 0x0f == first % 16) by (bit_vector);
        if first >> 4 == 4 {
            let header_len = ((first & 0x0f) as usize) * 4;
            if header_len <= packet.len() {
                append_bytes(
                    &mut out,
                    vstd::slice::slice_subrange(packet, header_len, packet.len()),
                );
                return out;
            }
        }
    }
    append_bytes(&mut out, packet);
    assert(out@ =~= packet@);
    out
}

/// Builds the inbound datagram for a received one, as `inbound_datagram` states.
pub fn synthesize_inbound(received: &[u8]) -> (r: Option<Vec<u8>>)
    requires
        received@.len() <= MAX_DATAGRAM_LEN,
    ensures
        r is Some <==> inbound_datagram(received@) is Some,
        r matches Some(d) ==> inbound_datagram(received@) == Some(d@),
{
    if received.len() < MIN_INBOUND_LEN || received[9] != IP_PROTOCOL_ICMP {
        return None;
    }
    let src = vstd::slice::slice_subrange(received, 12, 16);
    let dst = vstd::slice::slice_subrange(received, 16, 20);
    let icmp = vstd::slice::slice_subrange(received, IPV4_HEADER_LEN, received.len());
    Some(synthesize_datagram(received[8], src, dst, icmp))
}

/// Stripping the header of a synthesized datagram gives back exactly the
/// payload it was built around.
pub proof fn lemma_strip_synthesized(ttl: u8, src: Seq<u8>, dst: Seq<u8>, payload: Seq<u8>)
    requires
        src.len() == 4,
        dst.len() == 4,
        payload.len() + IPV4_HEADER_LEN <= MAX_DATAGRAM_LEN,
    ensures
        ip_payload(synthesized_datagram(ttl, src, dst, payload)) == payload,
{
    let d = synthesized_datagram(ttl, src, dst, payload);
    assert(d[0] == IPV4_VERSION_IHL);
    assert(stated_header_len(IPV4_VERSION_IHL) == 20);
    assert(d.subrange(20, d.len() as int) =~= payload);
}

} // verus!
