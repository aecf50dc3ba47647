//! A userspace bridge between an IP/ICMP protocol engine and the host's raw ICMP
//! transport: the Internet checksum, ICMP echo records, synthetic IPv4 envelopes,
//! the virtual device's queues and the ping exchange state machine.
pub mod bytes;
pub mod checksum;
pub mod device;
pub mod echo;
pub mod exchange;
pub mod ipv4;
