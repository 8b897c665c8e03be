//! The datagram transport: control datagrams out, status datagrams in.

use bytes::Bytes;
use vstd::prelude::*;
use crate::error::DsError;
use crate::ext::extend;
use crate::ext::unread;
use self::inbound::decoded;
use self::inbound::taken;
use self::inbound::UdpResponsePacket;
use self::outbound::UdpControlPacket;

pub mod inbound;
pub mod outbound;

verus! {

/// The codec of the datagram transport.
pub struct DsUdpCodec;

impl DsUdpCodec {
    /// Decodes a status datagram and returns it with the number of bytes that it takes.
    /// A datagram that cannot be decoded gives the error `Decode`, also where it is cut
    /// short, and never `Ok(None)`: nothing will follow that could complete it.
    pub fn decode(&mut self, buf: &mut Bytes) -> (r: Result<
        Option<(UdpResponsePacket, usize)>,
        DsError,
    >)
        ensures
            unread(*final(buf)) == unread(*old(buf)).skip(taken(unread(*old(buf)))),
            match decoded(unread(*old(buf))) {
                Ok((packet, len)) => r matches Ok(Some((p, n))) && p@ == packet && n == len,
                Err(_) => r matches Err(e) && e == DsError::Decode,
            },
    {
        match UdpResponsePacket::decode(buf) {
            Ok((packet, len)) => Ok(Some((packet, len))),
            Err(_) => Err(DsError::Decode),
        }
    }

    /// Appends the wire form of a control datagram to the bytes to send.
    pub fn encode(&mut self, item: UdpControlPacket, dst: &mut Vec<u8>)
        ensures
            final(dst)@ == old(dst)@ + item@.wire(),
    {
        let bytes: Vec<u8> = item.encode();
        extend(dst, bytes.as_slice());
    }
}

} // verus!
