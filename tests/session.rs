use wwweth0::device::{generate_icmp_reply, VirtualDevice, MAX_TRANSMISSION_UNIT};
use wwweth0::echo::build_echo_request;
use wwweth0::exchange::{
    elapsed_ms, prepare_ping, ExchangeEvent, ExchangeState, PingError, PingResponse,
    SESSION_IDENTIFIER,
};
use wwweth0::ipv4::{strip_ip_header, synthesize_datagram};

#[test]
fn inbound_queue_is_fifo() {
    let mut dev = VirtualDevice::new();
    dev.enqueue_rx_packet(vec![1]);
    dev.enqueue_rx_packet(vec![2, 2]);
    dev.enqueue_rx_packet(vec![3, 3, 3]);
    assert_eq!(dev.dequeue_rx_packet(), Some(vec![1]));
    assert_eq!(dev.dequeue_rx_packet(), Some(vec![2, 2]));
    assert_eq!(dev.dequeue_rx_packet(), Some(vec![3, 3, 3]));
    assert_eq!(dev.dequeue_rx_packet(), None);
}

#[test]
fn outbound_queue_is_fifo_and_separate() {
    let mut dev = VirtualDevice::new();
    assert_eq!(dev.max_transmission_unit(), MAX_TRANSMISSION_UNIT);
    assert_eq!(dev.dequeue_tx_packet(), None);
    dev.enqueue_tx_packet(vec![1]);
    dev.queue_tx_packet(vec![2]);
    assert_eq!(dev.dequeue_rx_packet(), None);
    assert_eq!(dev.dequeue_tx_packet(), Some(vec![1]));
    assert_eq!(dev.dequeue_tx_packet(), Some(vec![2]));
    assert_eq!(dev.dequeue_tx_packet(), None);
}

#[test]
fn outbound_payload_has_header_stripped() {
    let mut dev = VirtualDevice::new();
    let icmp = build_echo_request(SESSION_IDENTIFIER, 3, &[]);
    dev.enqueue_tx_packet(synthesize_datagram(64, &[1, 1, 1, 1], &[2, 2, 2, 2], &icmp));
    dev.enqueue_tx_packet(vec![9, 9]);
    assert_eq!(dev.next_outbound_payload(), Some(icmp));
    assert_eq!(dev.next_outbound_payload(), Some(vec![9, 9]));
    assert_eq!(dev.next_outbound_payload(), None);
}

#[test]
fn received_datagrams_join_inbound_queue() {
    let mut dev = VirtualDevice::new();
    let mut raw = vec![0u8; 28];
    raw[0] = 0x45;
    raw[8] = 64;
    raw[9] = 1;
    assert!(dev.accept_received(&raw));
    raw[9] = 17;
    assert!(!dev.accept_received(&raw));
    assert!(!dev.accept_received(&[0x45, 0, 0]));
    let d = dev.dequeue_rx_packet().unwrap();
    assert_eq!(d[0], 0x45);
    assert_eq!(d[9], 1);
    assert_eq!(dev.dequeue_rx_packet(), None);
}

#[test]
fn loopback_reply_swaps_addresses() {
    let icmp = build_echo_request(SESSION_IDENTIFIER, 7, &[5]);
    let request = synthesize_datagram(64, &[10, 0, 0, 1], &[10, 0, 0, 2], &icmp);
    let reply = generate_icmp_reply(&request).unwrap();
    assert_eq!(&reply[12..16], &[10, 0, 0, 2]);
    assert_eq!(&reply[16..20], &[10, 0, 0, 1]);
    assert_eq!(reply[20], 0);
    assert_eq!(&reply[22..24], &[0, 0]);
    assert_eq!(&reply[24..], &icmp[4..]);
    assert!(generate_icmp_reply(&reply).is_none());
    assert!(generate_icmp_reply(&request[..27]).is_none());
}

#[test]
fn loopback_scenario_resolves() {
    let req = prepare_ping("127.0.0.1", 1).unwrap();
    assert_eq!(req.destination, vec![127, 0, 0, 1]);
    let mut dev = VirtualDevice::new();
    let mut state = ExchangeState::Idle;
    state = state.step(
        &ExchangeEvent::Issued { sequence: 1, identifier: SESSION_IDENTIFIER, now_ms: 100 },
        5000,
    );
    let datagram = synthesize_datagram(64, &[127, 0, 0, 1], &req.destination, &req.payload);
    dev.loopback_transmit(datagram);
    while let Some(packet) = dev.dequeue_rx_packet() {
        let payload = strip_ip_header(&packet);
        state = state.step(&ExchangeEvent::Received { payload, now_ms: 103 }, 5000);
    }
    assert!(state.is_finished());
    match state {
        ExchangeState::Resolved(r) => {
            assert_eq!(r, PingResponse { sequence: 1, bytes: 8, time_ms: 3 });
            assert!(r.bytes >= 8);
        }
        _ => panic!("exchange not resolved"),
    }
}

#[test]
fn invalid_destination_is_reported() {
    assert_eq!(prepare_ping("not-an-address", 1).err(), Some(PingError::InvalidAddress));
    assert_eq!(prepare_ping("", 1).err(), Some(PingError::InvalidAddress));
    assert_eq!(prepare_ping("256.1.1.1", 1).err(), Some(PingError::InvalidAddress));
    assert_eq!(prepare_ping("::1", 1).err(), Some(PingError::UnsupportedAddress));
}

#[test]
fn prepared_request_carries_address_and_sequence() {
    let req = prepare_ping("10.1.2.3", 0x0203).unwrap();
    assert_eq!(req.destination, vec![10, 1, 2, 3]);
    assert_eq!(req.payload, build_echo_request(0x1234, 0x0203, &[]));
}

#[test]
fn no_reply_times_out_only_after_timeout() {
    let mut state = ExchangeState::Idle.step(
        &ExchangeEvent::Issued { sequence: 9, identifier: SESSION_IDENTIFIER, now_ms: 1000 },
        5000,
    );
    for now in [1000u64, 3000, 5999, 6000] {
        state = state.step(&ExchangeEvent::Tick { now_ms: now }, 5000);
        assert!(!state.is_finished());
    }
    state = state.step(&ExchangeEvent::Tick { now_ms: 6001 }, 5000);
    assert_eq!(state, ExchangeState::TimedOut);
    let mut reply = build_echo_request(SESSION_IDENTIFIER, 9, &[]);
    reply[0] = 0;
    state = state.step(&ExchangeEvent::Received { payload: reply, now_ms: 6002 }, 5000);
    assert_eq!(state, ExchangeState::TimedOut);
}

#[test]
fn uncorrelated_replies_are_discarded() {
    let sent = ExchangeState::Idle.step(
        &ExchangeEvent::Issued { sequence: 4, identifier: SESSION_IDENTIFIER, now_ms: 0 },
        1000,
    );
    let mut other = build_echo_request(0x9999, 4, &[]);
    other[0] = 0;
    assert_eq!(sent.step(&ExchangeEvent::Received { payload: other, now_ms: 5 }, 1000), sent);
    let request = build_echo_request(SESSION_IDENTIFIER, 4, &[]);
    assert_eq!(sent.step(&ExchangeEvent::Received { payload: request, now_ms: 5 }, 1000), sent);
}

#[test]
fn idle_ignores_everything_but_issue() {
    let idle = ExchangeState::Idle;
    assert_eq!(idle.step(&ExchangeEvent::Tick { now_ms: 99999 }, 1), ExchangeState::Idle);
    let sent = idle.step(&ExchangeEvent::Issued { sequence: 1, identifier: 2, now_ms: 3 }, 1);
    assert_eq!(sent, ExchangeState::RequestSent { sequence: 1, identifier: 2, issued_ms: 3 });
    let again = sent.step(&ExchangeEvent::Issued { sequence: 5, identifier: 2, now_ms: 4 }, 1);
    assert_eq!(again, sent);
}

#[test]
fn elapsed_never_negative() {
    assert_eq!(elapsed_ms(10, 25), 15);
    assert_eq!(elapsed_ms(25, 10), 0);
}

#[test]
fn default_device_is_empty() {
    let mut dev = VirtualDevice::default();
    assert_eq!(dev.dequeue_rx_packet(), None);
    assert_eq!(dev.dequeue_tx_packet(), None);
}

#[test]
fn request_for_ipv4_octets() {
    let req = wwweth0::exchange::request_for_octets(&[127, 0, 0, 1], 1).unwrap();
    assert_eq!(req.destination, vec![127, 0, 0, 1]);
    assert_eq!(req.payload, vec![8, 0, 0xE5, 0xCA, 0x12, 0x34, 0, 1]);
    let six = [0u8; 16];
    assert_eq!(
        wwweth0::exchange::request_for_octets(&six, 1).err(),
        Some(PingError::UnsupportedAddress)
    );
    assert_eq!(
        wwweth0::exchange::request_for_octets(&[1, 2, 3], 1).err(),
        Some(PingError::UnsupportedAddress)
    );
}

#[test]
fn loopback_ping_payload() {
    let req = prepare_ping("127.0.0.1", 1).unwrap();
    assert_eq!(req.payload, vec![8, 0, 0xE5, 0xCA, 0x12, 0x34, 0, 1]);
}

#[test]
fn loopback_transmit_clears_ip_checksum() {
    let icmp = build_echo_request(SESSION_IDENTIFIER, 7, &[5]);
    let mut request = synthesize_datagram(64, &[10, 0, 0, 1], &[10, 0, 0, 2], &icmp);
    request[10] = 0xAA;
    request[11] = 0xBB;
    let mut dev = VirtualDevice::new();
    dev.loopback_transmit(request.clone());
    assert_eq!(dev.dequeue_rx_packet(), Some(request.clone()));
    let reply = dev.dequeue_rx_packet().unwrap();
    assert_eq!(&reply[10..12], &[0, 0]);
    assert_eq!(&reply[12..16], &[10, 0, 0, 2]);
    assert_eq!(&reply[16..20], &[10, 0, 0, 1]);
    assert_eq!(reply[20], 0);
    assert_eq!(&reply[21..], &request[21..]);
    assert_eq!(dev.dequeue_rx_packet(), None);
    let reply_direct = wwweth0::device::loopback_echo_reply(&request).unwrap();
    assert_eq!(reply_direct, reply);
    dev.loopback_transmit(vec![1, 2, 3]);
    assert_eq!(dev.dequeue_rx_packet(), Some(vec![1, 2, 3]));
    assert_eq!(dev.dequeue_rx_packet(), None);
}

#[test]
fn late_reply_times_out() {
    let sent = ExchangeState::Idle.step(
        &ExchangeEvent::Issued { sequence: 2, identifier: SESSION_IDENTIFIER, now_ms: 0 },
        1000,
    );
    let mut reply = build_echo_request(SESSION_IDENTIFIER, 2, &[]);
    reply[0] = 0;
    let late = sent.step(&ExchangeEvent::Received { payload: reply.clone(), now_ms: 1001 }, 1000);
    assert_eq!(late, ExchangeState::TimedOut);
    let in_time = sent.step(&ExchangeEvent::Received { payload: reply, now_ms: 1000 }, 1000);
    assert_eq!(
        in_time,
        ExchangeState::Resolved(PingResponse { sequence: 2, bytes: 8, time_ms: 1000 })
    );
}
