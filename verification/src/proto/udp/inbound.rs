//! The status datagram that the controller sends.
//!
//! | offset | bytes | field |
//! |---|---|---|
//! | 0 | 2 | sequence number, most significant byte first |
//! | 2 | 1 | protocol version, ignored |
//! | 3 | 1 | status byte |
//! | 4 | 1 | trace byte |
//! | 5 | 2 | battery: volts, then 256ths of a volt |
//! | 7 | 1 | 1 if the controller asks for the date |
//! | 8 | … | tags |

use bytes::Bytes;
use vstd::prelude::*;
use crate::error::DecodeError;
use crate::ext::be_u16;
use crate::ext::BufExt;
use crate::ext::get_u16;
use crate::ext::get_u8;
use crate::ext::remaining;
use crate::ext::skip;
use crate::ext::unread;
use self::types::tags::DiskInfo;
use self::types::tags::JoystickOutput;
use self::types::tags::TagType;
use self::types::Status;
use self::types::Trace;

pub mod types;

verus! {

/// The number of bytes before the tags.
pub const HEADER_LEN: usize = 8;

/// A battery voltage as it stands on the wire: `high + low / 256` volts.
#[derive(Clone, Copy, Debug, PartialEq, Eq, Structural)]
pub struct Voltage {
    /// Whole volts.
    pub high: u8,
    /// 256ths of a volt.
    pub low: u8,
}

impl Voltage {
    /// The voltage in 256ths of a volt.
    pub fn raw(self) -> (r: u16)
        ensures
            r == self.high * 256 + self.low,
    {
        self.high as u16 * 256 + self.low as u16
    }
}

/// A status datagram as a plain value.
pub struct UdpResponsePacketView {
    pub seqnum: u16,
    pub status: u8,
    pub trace: u8,
    pub battery: Voltage,
    pub need_date: bool,
}

/// How far the tags reach, and whether the last of them is all there. A byte that is no
/// known id ends the tags and is counted. A known tag that is cut short ends them after
/// its id.
pub open spec fn tags_scan(bytes: Seq<u8>) -> (int, bool)
    decreases bytes.len(),
{
    if bytes.len() == 0 {
        (0, true)
    } else {
        match TagType::of_id(bytes[0]) {
            None => (1, true),
            Some(tag) => {
                if bytes.len() < 1 + tag.size() {
                    (1, false)
                } else {
                    let rest = tags_scan(bytes.skip(1 + tag.size() as int));
                    (1 + tag.size() + rest.0, rest.1)
                }
            },
        }
    }
}

/// The fixed part of a datagram of at least eight bytes.
pub open spec fn fixed_part(bytes: Seq<u8>) -> UdpResponsePacketView {
    UdpResponsePacketView {
        seqnum: be_u16(bytes) as u16,
        status: bytes[3],
        trace: bytes[4],
        battery: Voltage { high: bytes[5], low: bytes[6] },
        need_date: bytes[7] == 1,
    }
}

/// What a datagram decodes to: the packet and the number of bytes that it takes. A
/// datagram that ends within its fixed part or within a tag gives `UnexpectedEof`, one
/// with an unknown bit in its status or trace byte `Malformed`.
pub open spec fn decoded(bytes: Seq<u8>) -> Result<(UdpResponsePacketView, int), DecodeError> {
    if bytes.len() < HEADER_LEN {
        Err(DecodeError::UnexpectedEof)
    } else if !Status::accepts(bytes[3]) || !Trace::accepts(bytes[4]) {
        Err(DecodeError::Malformed)
    } else if !tags_scan(bytes.skip(HEADER_LEN as int)).1 {
        Err(DecodeError::UnexpectedEof)
    } else {
        Ok((fixed_part(bytes), HEADER_LEN + tags_scan(bytes.skip(HEADER_LEN as int)).0))
    }
}

/// The number of bytes that decoding takes from the cursor, whatever the outcome.
pub open spec fn taken(bytes: Seq<u8>) -> int {
    if bytes.len() < HEADER_LEN {
        0
    } else if !Status::accepts(bytes[3]) || !Trace::accepts(bytes[4]) {
        HEADER_LEN as int
    } else {
        HEADER_LEN + tags_scan(bytes.skip(HEADER_LEN as int)).0
    }
}

/// Status datagram sent by the controller about every 20 ms.
#[derive(Debug)]
pub struct UdpResponsePacket {
    pub seqnum: u16,
    pub status: Status,
    pub trace: Trace,
    pub battery: Voltage,
    pub need_date: bool,
}

impl View for UdpResponsePacket {
    type V = UdpResponsePacketView;

    open spec fn view(&self) -> UdpResponsePacketView {
        UdpResponsePacketView {
            seqnum: self.seqnum,
            status: self.status@,
            trace: self.trace@,
            battery: self.battery,
            need_date: self.need_date,
        }
    }
}

impl UdpResponsePacket {
    /// Decodes a status datagram from the cursor and returns it with the number of
    /// bytes that it takes. The payloads of the tags are read and dropped.
    pub fn decode(buf: &mut Bytes) -> (r: Result<(UdpResponsePacket, usize), DecodeError>)
        ensures
            unread(*final(buf)) == unread(*old(buf)).skip(taken(unread(*old(buf)))),
            match decoded(unread(*old(buf))) {
                Ok((packet, len)) => r matches Ok((p, n)) && p@ == packet && n == len,
                Err(e) => r matches Err(f) && f == e,
            },
    {
        let ghost bytes = unread(*buf);
        if remaining(buf) < HEADER_LEN {
            return Err(DecodeError::UnexpectedEof);
        }
        let seqnum: u16 = get_u16(buf);
        let _ = get_u8(buf);
        let status_bits: u8 = get_u8(buf);
        let trace_bits: u8 = get_u8(buf);
        let high: u8 = get_u8(buf);
        let low: u8 = get_u8(buf);
        let need_date: bool = get_u8(buf) == 1;
        let (status, trace) = match (Status::from_bits(status_bits), Trace::from_bits(trace_bits)) {
            (Some(status), Some(trace)) => (status, trace),
            _ => {
                return Err(DecodeError::Malformed);
            },
        };
        let ghost tags = bytes.skip(HEADER_LEN as int);
        let mut len: usize = HEADER_LEN;
        let mut complete: bool = true;
        assert(tags.skip(0) =~= tags);
        loop
            invariant_except_break
                complete,
                tags_scan(tags).0 == len - HEADER_LEN + tags_scan(tags.skip(len - HEADER_LEN)).0,
                tags_scan(tags).1 == tags_scan(tags.skip(len - HEADER_LEN)).1,
            invariant
                HEADER_LEN <= bytes.len() <= usize::MAX,
                tags == bytes.skip(HEADER_LEN as int),
                HEADER_LEN <= len <= bytes.len(),
                unread(*buf) == tags.skip(len - HEADER_LEN),
            ensures
                HEADER_LEN <= len <= bytes.len(),
                unread(*buf) == tags.skip(len - HEADER_LEN),
                tags_scan(tags) == ((len - HEADER_LEN, complete)),
            decreases bytes.len() - len,
        {
            let ghost here = tags.skip(len - HEADER_LEN);
            let id: u8 = match buf.read_u8() {
                Ok(id) => id,
                Err(_) => {
                    break ;
                },
            };
            len = len + 1;
            let tag: TagType = match TagType::from_id(id) {
                Some(tag) => tag,
                None => {
                    break ;
                },
            };
            let size: usize = tag.payload_len();
            let chomped: Result<(), DecodeError> = match tag {
                TagType::JoystickOutput => match JoystickOutput::decode(buf) {
                    Ok(_) => Ok(()),
                    Err(e) => Err(e),
                },
                TagType::DiskInfo => match DiskInfo::decode(buf) {
                    Ok(_) => Ok(()),
                    Err(e) => Err(e),
                },
                _ => skip(buf, size),
            };
            if chomped.is_err() {
                complete = false;
                break ;
            }
            len = len + size;
            assert(here.skip(1 + size) =~= tags.skip(len - HEADER_LEN));
        }
        if !complete {
            return Err(DecodeError::UnexpectedEof);
        }
        let battery = Voltage { high, low };
        Ok((UdpResponsePacket { seqnum, status, trace, battery, need_date }, len))
    }
}

} // verus!
