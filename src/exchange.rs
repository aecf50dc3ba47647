//! The ping exchange: preparing a request for a destination, and the state
//! machine that resolves it with a correlated reply or times it out.
use crate::bytes::append_bytes;
use crate::echo::{
    build_echo_request, echo_request_bytes, match_echo_reply, reply_matches,
};
use vstd::prelude::*;

verus! {

/// The identifier this library puts in every Echo Request.
pub const SESSION_IDENTIFIER: u16 = 0x1234;

/// Octets of the IP address written in `s`, as smoltcp parses it: four for
/// IPv4, sixteen for IPv6; `None` where `s` is neither.
pub uninterp spec fn ip_address_octets(s: Seq<char>) -> Option<Seq<u8>>;

/// Relies on smoltcp's `FromStr` for `wire::IpAddress`: it tries a dotted IPv4
/// address, then an IPv6 one, and fails on anything else, the empty string
/// included.
#[verifier::external_body]
fn parse_ip_address(s: &str) -> (r: Option<Vec<u8>>)
    ensures
        r is Some <==> ip_address_octets(s@) is Some,
        r matches Some(v) ==> ip_address_octets(s@) == Some(v@) && (v@.len() == 4 || v@.len()
            == 16),
        s@.len() == 0 ==> r is None,
{
    match s.parse::<smoltcp::wire::IpAddress>() {
        Ok(smoltcp::wire::IpAddress::Ipv4(a)) => Some(a.octets().to_vec()),
        Ok(smoltcp::wire::IpAddress::Ipv6(a)) => Some(a.octets().to_vec()),
        Err(_) => None,
    }
}

/// Why a ping could not be made.
#[derive(Clone, Copy, Debug, PartialEq, Eq, Structural)]
pub enum PingError {
    /// The destination is not an IP address.
    InvalidAddress,
    /// The destination is an IPv6 address; only IPv4 is carried.
    UnsupportedAddress,
    /// The raw transport could not be opened.
    TransportUnavailable,
    /// The request could not be handed to the transport.
    SendFailed,
}

/// An Echo Request ready to leave: the IPv4 destination and the ICMP message.
pub struct PingRequest {
    pub destination: Vec<u8>,
    pub payload: Vec<u8>,
}

/// Builds the Echo Request for `sequence` to the address with the given
/// octets; only a four-octet (IPv4) address is carried.
pub fn request_for_octets(octets: &[u8], sequence: u16) -> (r: Result<PingRequest, PingError>)
    ensures
        r is Ok <==> octets@.len() == 4,
        r is Err ==> r == Err::<PingRequest, PingError>(PingError::UnsupportedAddress),
        r matches Ok(req) ==> req.destination@ == octets@ && req.payload@ == echo_request_bytes(
            SESSION_IDENTIFIER,
            sequence,
            Seq::empty(),
        ),
{
    if octets.len() != 4 {
        return Err(PingError::UnsupportedAddress);
    }
    let mut destination: Vec<u8> = Vec::new();
    append_bytes(&mut destination, octets);
    let empty: [u8; 0] = [];
    let payload = build_echo_request(SESSION_IDENTIFIER, sequence, &empty);
    assert(empty@ =~= Seq::<u8>::empty());
    Ok(PingRequest { destination, payload })
}

/// Parses `dest_ip` and builds the Echo Request for `sequence`; no network
/// activity takes place.
pub fn prepare_ping(dest_ip: &str, sequence: u16) -> (r: Result<PingRequest, PingError>)
    ensures
        r == Err::<PingRequest, PingError>(PingError::InvalidAddress) <==> ip_address_octets(
            dest_ip@,
        ) is None,
        r == Err::<PingRequest, PingError>(PingError::UnsupportedAddress) <==> (ip_address_octets(
            dest_ip@,
        ) matches Some(o) && o.len() != 4),
        r is Ok <==> (ip_address_octets(dest_ip@) matches Some(o) && o.len() == 4),
        r matches Ok(req) ==> ip_address_octets(dest_ip@) == Some(req.destination@)
            && req.payload@ == echo_request_bytes(SESSION_IDENTIFIER, sequence, Seq::empty()),
{
    match parse_ip_address(dest_ip) {
        None => Err(PingError::InvalidAddress),
        Some(octets) => request_for_octets(octets.as_slice(), sequence),
    }
}

/// The outcome of a resolved exchange.
#[derive(Clone, Copy, Debug, PartialEq, Eq, Structural)]
pub struct PingResponse {
    pub sequence: u16,
    pub bytes: usize,
    pub time_ms: u64,
}

/// Where an exchange stands.
#[derive(Clone, Copy, Debug, PartialEq, Eq, Structural)]
pub enum ExchangeState {
    Idle,
    RequestSent { sequence: u16, identifier: u16, issued_ms: u64 },
    Resolved(PingResponse),
    TimedOut,
}

/// What happens to an exchange.
pub enum ExchangeEvent {
    /// An Echo Request was issued at `now_ms`.
    Issued { sequence: u16, identifier: u16, now_ms: u64 },
    /// An ICMP message arrived at `now_ms`.
    Received { payload: Vec<u8>, now_ms: u64 },
    /// A poll cycle began at `now_ms`.
    Tick { now_ms: u64 },
}

/// Milliseconds from `issued_ms` to `now_ms`; zero where the clock went back.
pub open spec fn elapsed(issued_ms: u64, now_ms: u64) -> u64 {
    if now_ms >= issued_ms {
        (now_ms - issued_ms) as u64
    } else {
        0
    }
}

/// The state an exchange moves to on an event. A request is issued only from
/// `Idle`. Once more than `timeout_ms` has passed since issue, a tick or a
/// message times a sent request out; before that, a message resolves it when it
/// is its Echo Reply, with the time since issue as round trip. Every other
/// event leaves the state as it is.
pub open spec fn next_state(
    state: ExchangeState,
    event: ExchangeEvent,
    timeout_ms: u64,
) -> ExchangeState {
    match (state, event) {
        (ExchangeState::Idle, ExchangeEvent::Issued { sequence, identifier, now_ms }) => {
            ExchangeState::RequestSent { sequence, identifier, issued_ms: now_ms }
        },
        (
            ExchangeState::RequestSent { sequence, identifier, issued_ms },
            ExchangeEvent::Received { payload, now_ms },
        ) => {
            if elapsed(issued_ms, now_ms) > timeout_ms {
                ExchangeState::TimedOut
            } else if reply_matches(payload@, sequence, identifier) {
                ExchangeState::Resolved(
                    PingResponse {
                        sequence,
                        bytes: payload@.len() as usize,
                        time_ms: elapsed(issued_ms, now_ms),
                    },
                )
            } else {
                state
            }
        },
        (
            ExchangeState::RequestSent { sequence, identifier, issued_ms },
            ExchangeEvent::Tick { now_ms },
        ) => {
            if elapsed(issued_ms, now_ms) > timeout_ms {
                ExchangeState::TimedOut
            } else {
                state
            }
        },
        _ => state,
    }
}

/// A sent request is never timed out by a tick at most `timeout_ms` after it
/// was issued, and always by a later one; a message that arrives later times
/// it out too, correlated or not, while its Echo Reply arriving in time
/// resolves it.
pub proof fn lemma_timeout_only_after_budget(
    sequence: u16,
    identifier: u16,
    issued_ms: u64,
    now_ms: u64,
    timeout_ms: u64,
    payload: Vec<u8>,
)
    ensures
        ({
            let sent = ExchangeState::RequestSent { sequence, identifier, issued_ms };
            let ticked = next_state(sent, ExchangeEvent::Tick { now_ms }, timeout_ms);
            let received = next_state(
                sent,
                ExchangeEvent::Received { payload, now_ms },
                timeout_ms,
            );
            &&& now_ms <= issued_ms + timeout_ms ==> ticked == sent
            &&& now_ms > issued_ms + timeout_ms ==> ticked == ExchangeState::TimedOut
            &&& now_ms > issued_ms + timeout_ms ==> received == ExchangeState::TimedOut
            &&& now_ms <= issued_ms + timeout_ms && reply_matches(payload@, sequence, identifier)
                ==> received is Resolved
        }),
{
}

/// Milliseconds from `issued_ms` to `now_ms`, as `elapsed` states.
pub fn elapsed_ms(issued_ms: u64, now_ms: u64) -> (r: u64)
    ensures
        r == elapsed(issued_ms, now_ms),
{
    if now_ms >= issued_ms {
        now_ms - issued_ms
    } else {
        0
    }
}

impl ExchangeState {
    /// The exchange is over: resolved or timed out.
    pub fn is_finished(&self) -> (r: bool)
        ensures
            r == (self is Resolved || self is TimedOut),
    {
        match self {
            ExchangeState::Resolved(_) | ExchangeState::TimedOut => true,
            _ => false,
        }
    }

    /// Moves the exchange on by one event, as `next_state` states.
    pub fn step(self, event: &ExchangeEvent, timeout_ms: u64) -> (r: ExchangeState)
        ensures
            r == next_state(self, *event, timeout_ms),
    {
        match (self, event) {
            (ExchangeState::Idle, ExchangeEvent::Issued { sequence, identifier, now_ms }) => {
                ExchangeState::RequestSent {
                    sequence: *sequence,
                    identifier: *identifier,
                    issued_ms: *now_ms,
                }
            },
            (
                ExchangeState::RequestSent { sequence, identifier, issued_ms },
                ExchangeEvent::Received { payload, now_ms },
            ) => {
                if elapsed_ms(issued_ms, *now_ms) > timeout_ms {
                    return ExchangeState::TimedOut;
                }
                match match_echo_reply(payload.as_slice(), sequence, identifier) {
                    Some(_) => ExchangeState::Resolved(
                        PingResponse {
                            sequence,
                            bytes: payload.len(),
                            time_ms: elapsed_ms(issued_ms, *now_ms),
                        },
                    ),
                    None => self,
                }
            },
            (
                ExchangeState::RequestSent { sequence: _, identifier: _, issued_ms },
                ExchangeEvent::Tick { now_ms },
            ) => {
                if elapsed_ms(issued_ms, *now_ms) > timeout_ms {
                    ExchangeState::TimedOut
                } else {
                    self
                }
            },
            _ => self,
        }
    }
}

} // verus!
