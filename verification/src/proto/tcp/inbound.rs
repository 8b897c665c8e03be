//! Packets that the controller sends over the reliable stream.

use bytes::Bytes;
use vstd::prelude::*;
use vstd::utf8::decode_utf8;
use vstd::utf8::valid_utf8;
use crate::error::DecodeError;
use crate::ext::after_read;
use crate::ext::be_u16;
use crate::ext::be_u32;
use crate::ext::copy_to_vec;
use crate::ext::get_u16;
use crate::ext::get_u32;
use crate::ext::remaining;
use crate::ext::skip;
use crate::ext::unread;
use crate::text::string_from_utf8;

verus! {

/// The number of bytes of a line of output before its text.
pub const STDOUT_HEAD: usize = 6;

/// A line of output as a plain value.
pub struct StdoutView {
    pub timestamp: u32,
    pub message: Seq<char>,
    pub seqnum: u16,
}

/// A packet of the reliable stream as a plain value.
pub enum TcpPacketView {
    Stdout(StdoutView),
    Dummy,
}

/// A line that the robot code wrote to its standard output. A caller can show these as
/// the log of the robot code.
#[derive(Debug)]
pub struct Stdout {
    /// When the line was written, as the bit pattern of a single-precision number of
    /// seconds.
    pub timestamp: u32,
    pub message: String,
    pub seqnum: u16,
}

impl View for Stdout {
    type V = StdoutView;

    open spec fn view(&self) -> StdoutView {
        StdoutView { timestamp: self.timestamp, message: self.message@, seqnum: self.seqnum }
    }
}

/// The packets that the controller can send over the reliable stream.
#[derive(Debug)]
pub enum TcpPacket {
    /// A line from the standard output of the robot code.
    Stdout(Stdout),
    /// Stands for a packet of a kind that is not decoded.
    Dummy,
}

impl View for TcpPacket {
    type V = TcpPacketView;

    open spec fn view(&self) -> TcpPacketView {
        match self {
            TcpPacket::Stdout(s) => TcpPacketView::Stdout(s@),
            TcpPacket::Dummy => TcpPacketView::Dummy,
        }
    }
}

/// The line of output that a payload encodes: a time stamp of four bytes, a sequence
/// number of two, and the text in UTF-8. `None` for a payload that is too short or
/// whose text is no valid UTF-8.
pub open spec fn stdout_of(payload: Seq<u8>) -> Option<StdoutView> {
    if payload.len() < STDOUT_HEAD || !valid_utf8(payload.skip(STDOUT_HEAD as int)) {
        None
    } else {
        Some(
            StdoutView {
                timestamp: be_u32(payload) as u32,
                seqnum: be_u16(payload.skip(4)) as u16,
                message: decode_utf8(payload.skip(STDOUT_HEAD as int)),
            },
        )
    }
}

/// The line of output in the first `len` bytes: `UnexpectedEof` if there are fewer,
/// `Malformed` if they make no line.
pub open spec fn line_of(bytes: Seq<u8>, len: int) -> Result<StdoutView, DecodeError> {
    if bytes.len() < len {
        Err(DecodeError::UnexpectedEof)
    } else {
        match stdout_of(bytes.take(len)) {
            Some(line) => Ok(line),
            None => Err(DecodeError::Malformed),
        }
    }
}

impl Stdout {
    /// Decodes a line of output from the next `len` bytes of the cursor. With fewer
    /// bytes left nothing is taken. Otherwise all `len` bytes are taken, whether or not
    /// they make a line.
    pub fn decode(buf: &mut Bytes, len: usize) -> (r: Result<Stdout, DecodeError>)
        ensures
            unread(*final(buf)) == after_read(unread(*old(buf)), len as nat),
            match line_of(unread(*old(buf)), len as int) {
                Ok(line) => r matches Ok(s) && s@ == line,
                Err(e) => r matches Err(f) && f == e,
            },
    {
        let ghost bytes = unread(*buf);
        let ghost payload = bytes.take(len as int);
        if remaining(buf) < len {
            return Err(DecodeError::UnexpectedEof);
        }
        if len < STDOUT_HEAD {
            let _ = skip(buf, len);
            return Err(DecodeError::Malformed);
        }
        let timestamp: u32 = get_u32(buf);
        let seqnum: u16 = get_u16(buf);
        let text: Vec<u8> = copy_to_vec(buf, len - STDOUT_HEAD);
        assert(text@ =~= payload.skip(STDOUT_HEAD as int));
        match string_from_utf8(text) {
            Some(message) => Ok(Stdout { timestamp, message, seqnum }),
            None => Err(DecodeError::Malformed),
        }
    }
}

} // verus!
