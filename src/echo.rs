//! ICMP echo records: building requests, parsing replies and correlating them
//! with the request that is outstanding.
use crate::bytes::{append_bytes, be16, high_byte, low_byte, read_be16};
use crate::checksum::{checksum_fixup, with_checksum};
use vstd::prelude::*;

verus! {

/// ICMP type of an Echo Request.
pub const ICMP_ECHO_REQUEST: u8 = 8;

/// ICMP type of an Echo Reply.
pub const ICMP_ECHO_REPLY: u8 = 0;

/// Length of an ICMP echo header: type, code, checksum, identifier, sequence.
pub const ECHO_HEADER_LEN: usize = 8;

/// The eight header bytes of an echo message of type `kind`, with its checksum
/// field zero.
pub open spec fn echo_header(kind: u8, identifier: u16, sequence: u16) -> Seq<u8> {
    seq![
        kind,
        0u8,
        0u8,
        0u8,
        (identifier / 256) as u8,
        (identifier % 256) as u8,
        (sequence / 256) as u8,
        (sequence % 256) as u8,
    ]
}

/// The bytes of an Echo Request carrying `data`, with its checksum filled in.
pub open spec fn echo_request_bytes(identifier: u16, sequence: u16, data: Seq<u8>) -> Seq<u8> {
    with_checksum(echo_header(ICMP_ECHO_REQUEST, identifier, sequence) + data)
}

/// `p` is an Echo Reply: at least a full header, with type 0.
pub open spec fn is_echo_reply(p: Seq<u8>) -> bool {
    p.len() >= ECHO_HEADER_LEN && p[0] == ICMP_ECHO_REPLY
}

/// The identifier field of an echo message.
pub open spec fn echo_identifier(p: Seq<u8>) -> u16 {
    be16(p[4], p[5])
}

/// The sequence field of an echo message.
pub open spec fn echo_sequence(p: Seq<u8>) -> u16 {
    be16(p[6], p[7])
}

/// `p` is an Echo Reply to the request `(sequence, identifier)`.
pub open spec fn reply_matches(p: Seq<u8>, sequence: u16, identifier: u16) -> bool {
    is_echo_reply(p) && echo_sequence(p) == sequence && echo_identifier(p) == identifier
}

/// The fields of a parsed Echo Reply.
pub struct EchoReply {
    pub identifier: u16,
    pub sequence: u16,
    pub data: Vec<u8>,
}

impl EchoReply {
    /// This reply answers the request `(sequence, identifier)`.
    pub fn correlates(&self, sequence: u16, identifier: u16) -> (r: bool)
        ensures
            r == (self.sequence == sequence && self.identifier == identifier),
    {
        self.sequence == sequence && self.identifier == identifier
    }
}

/// Builds an Echo Request with the given identifier and sequence, followed by
/// `data`, and fills in its checksum.
pub fn build_echo_request(identifier: u16, sequence: u16, data: &[u8]) -> (r: Vec<u8>)
    requires
        data@.len() + ECHO_HEADER_LEN <= usize::MAX,
    ensures
        r@ == echo_request_bytes(identifier, sequence, data@),
{
    let mut buf: Vec<u8> = vec![
        ICMP_ECHO_REQUEST,
        0,
        0,
        0,
        high_byte(identifier),
        low_byte(identifier),
        high_byte(sequence),
        low_byte(sequence),
    ];
    assert(buf@ =~= echo_header(ICMP_ECHO_REQUEST, identifier, sequence));
    append_bytes(&mut buf, data);
    checksum_fixup(&mut buf);
    buf
}

/// Parses an Echo Reply; anything shorter than a header or of another type is
/// not a reply and gives `None`.
pub fn parse_echo_reply(payload: &[u8]) -> (r: Option<EchoReply>)
    ensures
        r is Some <==> is_echo_reply(payload@),
        r matches Some(e) ==> e.identifier == echo_identifier(payload@) && e.sequence
            == echo_sequence(payload@) && e.data@ == payload@.subrange(
            ECHO_HEADER_LEN as int,
            payload@.len() as int,
        ),
{
    if payload.len() < ECHO_HEADER_LEN || payload[0] != ICMP_ECHO_REPLY {
        return None;
    }
    let identifier = read_be16(payload[4], payload[5]);
    let sequence = read_be16(payload[6], payload[7]);
    let mut data: Vec<u8> = Vec::new();
    append_bytes(&mut data, vstd::slice::slice_subrange(payload, ECHO_HEADER_LEN, payload.len()));
    Some(EchoReply { identifier, sequence, data })
}

/// Parses `payload` and keeps it only where it is the Echo Reply to the request
/// `(sequence, identifier)`; any other message is discarded.
pub fn match_echo_reply(payload: &[u8], sequence: u16, identifier: u16) -> (r: Option<EchoReply>)
    ensures
        r is Some <==> reply_matches(payload@, sequence, identifier),
        r matches Some(e) ==> e.identifier == identifier && e.sequence == sequence && e.data@
            == payload@.subrange(ECHO_HEADER_LEN as int, payload@.len() as int),
{
    match parse_echo_reply(payload) {
        Some(reply) => {
            if reply.correlates(sequence, identifier) {
                Some(reply)
            } else {
                None
            }
        },
        None => None,
    }
}

/// An Echo Request built for `(sequence, identifier)`, answered with its type
/// byte turned into Echo Reply, parses back to that sequence and identifier, and
/// correlates with that request and with no other.
pub proof fn lemma_reply_correlates_with_request(
    identifier: u16,
    sequence: u16,
    data: Seq<u8>,
    other_identifier: u16,
    other_sequence: u16,
)
    ensures
        is_echo_reply(echo_request_bytes(identifier, sequence, data).update(0, ICMP_ECHO_REPLY)),
        echo_sequence(echo_request_bytes(identifier, sequence, data).update(0, ICMP_ECHO_REPLY))
            == sequence,
        echo_identifier(echo_request_bytes(identifier, sequence, data).update(0, ICMP_ECHO_REPLY))
            == identifier,
        reply_matches(
            echo_request_bytes(identifier, sequence, data).update(0, ICMP_ECHO_REPLY),
            other_sequence,
            other_identifier,
        ) <==> (other_sequence == sequence && other_identifier == identifier),
{
    let reply = echo_request_bytes(identifier, sequence, data).update(0, ICMP_ECHO_REPLY);
    let h = echo_header(ICMP_ECHO_REQUEST, identifier, sequence) + data;
    assert(reply[4] == h[4] && reply[5] == h[5] && reply[6] == h[6] && reply[7] == h[7]);
    assert(be16((identifier / 256) as u8, (identifier % 256) as u8) == identifier);
    assert(be16((sequence / 256) as u8, (sequence % 256) as u8) == sequence);
}

} // verus!
