//! The reliable transport.
//!
//! A frame is a two-byte length, most significant byte first, an id byte and a payload.
//! The length counts the id byte and the payload.

use bytes::Bytes;
use vstd::prelude::*;
use crate::ext::be_u16;
use crate::ext::BufExt;
use crate::ext::extend;
use crate::ext::remaining;
use crate::ext::skip;
use crate::ext::unread;
use self::inbound::stdout_of;
use self::inbound::Stdout;
use self::inbound::TcpPacket;
use self::inbound::TcpPacketView;
use self::outbound::OutgoingTcpTag;
use self::outbound::TcpTag;

pub mod inbound;
pub mod outbound;

verus! {

/// The id of a frame that holds a line of output.
pub const STDOUT_ID: u8 = 0x0c;

/// A frame that is all there and makes no packet. The bytes of the frame are to be
/// dropped so that the stream can go on behind it.
#[derive(Clone, Copy, Debug, PartialEq, Eq, Structural)]
pub struct MalformedFrame {
    /// The number of bytes that the frame takes, its length included.
    pub consumed: usize,
}

/// What the head of a stream decodes to.
pub enum FrameView {
    /// The first frame is not all there yet.
    Incomplete,
    /// The first frame takes `consumed` bytes and makes no packet.
    Malformed { consumed: int },
    /// The first frame takes `consumed` bytes and holds `packet`.
    Packet { packet: TcpPacketView, consumed: int },
}

/// What the head of a stream decodes to. A frame with another id than that of a line of
/// output is taken whole and gives the dummy packet.
pub open spec fn frame_of(bytes: Seq<u8>) -> FrameView {
    if bytes.len() < 2 || bytes.len() < 2 + be_u16(bytes) {
        FrameView::Incomplete
    } else if be_u16(bytes) == 0 {
        FrameView::Malformed { consumed: 2 }
    } else if bytes[2] == STDOUT_ID {
        match stdout_of(bytes.subrange(3, 2 + be_u16(bytes))) {
            Some(line) => FrameView::Packet {
                packet: TcpPacketView::Stdout(line),
                consumed: 2 + be_u16(bytes),
            },
            None => FrameView::Malformed { consumed: 2 + be_u16(bytes) },
        }
    } else {
        FrameView::Packet { packet: TcpPacketView::Dummy, consumed: 2 + be_u16(bytes) }
    }
}

/// The number of bytes that decoding takes from the cursor, whatever the outcome: of a
/// frame that is not all there, its length if that is there; else the frame.
pub open spec fn taken(bytes: Seq<u8>) -> int {
    if bytes.len() < 2 {
        0
    } else if bytes.len() < 2 + be_u16(bytes) {
        2
    } else {
        2 + be_u16(bytes)
    }
}

/// The codec of the reliable stream.
pub struct DsTcpCodec;

impl DsTcpCodec {
    /// Appends the wire form of a tag to the bytes to send.
    pub fn encode(&mut self, item: TcpTag, dst: &mut Vec<u8>)
        ensures
            final(dst)@ == old(dst)@ + item@.wire(),
    {
        let bytes: Vec<u8> = item.construct();
        extend(dst, bytes.as_slice());
    }

    /// Decodes the first frame of the cursor. `Ok(None)` says that the frame is not all
    /// there yet; a packet comes with the number of bytes that its frame takes.
    pub fn decode(&mut self, buf: &mut Bytes) -> (r: Result<
        Option<(TcpPacket, usize)>,
        MalformedFrame,
    >)
        ensures
            unread(*final(buf)) == unread(*old(buf)).skip(taken(unread(*old(buf)))),
            match frame_of(unread(*old(buf))) {
                FrameView::Incomplete => r matches Ok(None),
                FrameView::Malformed { consumed } => r matches Err(e) && e.consumed == consumed,
                FrameView::Packet { packet, consumed } => r matches Ok(Some((p, n))) && p@
                    == packet && n == consumed,
            },
    {
        let ghost bytes = unread(*buf);
        let len: usize = match buf.read_u16_be() {
            Ok(len) => len as usize,
            Err(_) => {
                return Ok(None);
            },
        };
        if remaining(buf) < len {
            return Ok(None);
        }
        if len == 0 {
            return Err(MalformedFrame { consumed: 2 });
        }
        let id: u8 = match buf.read_u8() {
            Ok(id) => id,
            Err(_) => {
                return Ok(None);
            },
        };
        assert(unread(*buf) =~= bytes.skip(3));
        assert(bytes.skip(3).take(len - 1) =~= bytes.subrange(3, 2 + len));
        if id == STDOUT_ID {
            match Stdout::decode(buf, len - 1) {
                Ok(line) => Ok(Some((TcpPacket::Stdout(line), len + 2))),
                Err(_) => Err(MalformedFrame { consumed: len + 2 }),
            }
        } else {
            let _ = skip(buf, len - 1);
            Ok(Some((TcpPacket::Dummy, len + 2)))
        }
    }
}

} // verus!
