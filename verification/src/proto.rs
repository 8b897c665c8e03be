//! Wire formats of the datagram and of the reliable transport.

pub mod tcp;
pub mod udp;
