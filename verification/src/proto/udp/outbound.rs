//! The control datagram that the driver station sends.
//!
//! | offset | bytes | field |
//! |---|---|---|
//! | 0 | 2 | sequence number, most significant byte first |
//! | 2 | 1 | protocol version, always 1 |
//! | 3 | 1 | control byte |
//! | 4 | 1 | request byte, zero for none |
//! | 5 | 1 | alliance byte |
//! | 6 | … | the tags, one after another |

use bytes::Bytes;
use vstd::prelude::*;
use crate::error::DecodeError;
use crate::ext::be_u16;
use crate::ext::copy_to_vec;
use crate::ext::extend;
use crate::ext::get_u16;
use crate::ext::get_u8;
use crate::ext::lemma_be_u16_of_bytes;
use crate::ext::remaining;
use crate::ext::u16_be_bytes;
use crate::ext::unread;
use crate::ext::write_u16_be;
use self::types::tags::lemma_tag_round_trip;
use self::types::tags::sendable;
use self::types::tags::tag_of;
use self::types::tags::Tag;
use self::types::tags::UdpTag;
use self::types::tags::UdpTagView;
use self::types::Alliance;
use self::types::Control;
use self::types::Request;

pub mod types;

verus! {

/// The protocol version that every control datagram states.
pub const COMM_VERSION: u8 = 0x01;

/// The number of bytes before the tags.
pub const HEADER_LEN: usize = 6;

/// A control datagram as a plain value.
pub struct UdpControlPacketView {
    pub seqnum: u16,
    pub control: u8,
    pub request: Option<Request>,
    pub alliance: u8,
    pub tags: Seq<UdpTagView>,
}

/// The plain values of a row of tags.
pub open spec fn tag_views(tags: Seq<UdpTag>) -> Seq<UdpTagView> {
    tags.map_values(|t: UdpTag| t@)
}

/// The wire form of a row of tags: the wire forms of the tags, one after another.
pub open spec fn tags_wire(tags: Seq<UdpTagView>) -> Seq<u8>
    decreases tags.len(),
{
    if tags.len() == 0 {
        Seq::empty()
    } else {
        tags[0].wire() + tags_wire(tags.drop_first())
    }
}

impl UdpControlPacketView {
    /// The six bytes before the tags.
    pub open spec fn header(self) -> Seq<u8> {
        u16_be_bytes(self.seqnum as int) + seq![
            COMM_VERSION,
            self.control,
            Request::wire(self.request),
            self.alliance,
        ]
    }

    /// The datagram as it is sent.
    pub open spec fn wire(self) -> Seq<u8> {
        self.header() + tags_wire(self.tags)
    }
}

/// A tag appended to a row is appended to the row's wire form.
pub proof fn lemma_tags_wire_push(tags: Seq<UdpTagView>, tag: UdpTagView)
    ensures
        tags_wire(tags.push(tag)) == tags_wire(tags) + tag.wire(),
    decreases tags.len(),
{
    if tags.len() == 0 {
        assert(tags_wire(tags.push(tag).drop_first()) =~= Seq::<u8>::empty());
        assert(tags_wire(tags.push(tag)) =~= tag.wire());
    } else {
        assert(tags.push(tag).drop_first() =~= tags.drop_first().push(tag));
        lemma_tags_wire_push(tags.drop_first(), tag);
    }
}

/// Control datagram to send to the controller.
pub struct UdpControlPacket {
    pub seqnum: u16,
    pub control: Control,
    pub request: Option<Request>,
    pub alliance: Alliance,
    pub tags: Vec<UdpTag>,
}

impl View for UdpControlPacket {
    type V = UdpControlPacketView;

    open spec fn view(&self) -> UdpControlPacketView {
        UdpControlPacketView {
            seqnum: self.seqnum,
            control: self.control@,
            request: self.request,
            alliance: self.alliance.0,
            tags: tag_views(self.tags@),
        }
    }
}

impl UdpControlPacket {
    /// An empty control datagram: sequence number one, no flag, no request, the first
    /// red station, no tags.
    pub fn new() -> (r: UdpControlPacket)
        ensures
            r@ == (UdpControlPacketView {
                seqnum: 1,
                control: 0,
                request: None,
                alliance: 0,
                tags: Seq::empty(),
            }),
    {
        let packet = UdpControlPacket {
            seqnum: 1,
            control: Control::empty(),
            request: None,
            alliance: Alliance::new_red(1),
            tags: Vec::new(),
        };
        assert(packet@.tags =~= Seq::empty());
        packet
    }

    /// Encodes the datagram into the bytes to send.
    pub fn encode(&self) -> (r: Vec<u8>)
        ensures
            r@ == self@.wire(),
    {
        let mut buf: Vec<u8> = Vec::new();
        write_u16_be(&mut buf, self.seqnum);
        buf.push(COMM_VERSION);
        buf.push(self.control.bits());
        match &self.request {
            Some(req) => buf.push(req.bits()),
            None => buf.push(0),
        }
        buf.push(self.alliance.0);
        assert(buf@ =~= self@.header());
        let mut i: usize = 0;
        while i < self.tags.len()
            invariant
                i <= self.tags@.len(),
                buf@ == self@.header() + tags_wire(tag_views(self.tags@.take(i as int))),
            decreases self.tags@.len() - i,
        {
            let tag: Vec<u8> = self.tags[i].construct();
            extend(&mut buf, tag.as_slice());
            proof {
                let before = tag_views(self.tags@.take(i as int));
                lemma_tags_wire_push(before, self.tags@[i as int]@);
                assert(tag_views(self.tags@.take(i + 1)) =~= before.push(self.tags@[i as int]@));
            }
            i = i + 1;
        }
        assert(self.tags@.take(i as int) =~= self.tags@);
        buf
    }

    /// Moves on to the next sequence number. After 65535 comes zero.
    pub fn increment_seqnum(&mut self)
        ensures
            final(self)@ == (UdpControlPacketView {
                seqnum: ((old(self).seqnum + 1) % 0x1_0000) as u16,
                ..old(self)@
            }),
    {
        self.seqnum = self.seqnum.wrapping_add(1);
    }
}

/// The tags that a row of bytes holds. A size byte of zero, an unknown id and data that
/// do not have the form of their tag give `Malformed`; a size byte that reaches beyond
/// the bytes gives `UnexpectedEof`.
pub open spec fn tags_of(bytes: Seq<u8>) -> Result<Seq<UdpTagView>, DecodeError>
    decreases bytes.len(),
{
    if bytes.len() == 0 {
        Ok(Seq::empty())
    } else if bytes[0] == 0 {
        Err(DecodeError::Malformed)
    } else if bytes.len() < 1 + bytes[0] {
        Err(DecodeError::UnexpectedEof)
    } else {
        match tag_of(bytes[1], bytes.subrange(2, 1 + bytes[0])) {
            None => Err(DecodeError::Malformed),
            Some(tag) => match tags_of(bytes.skip(1 + bytes[0])) {
                Ok(rest) => Ok(seq![tag] + rest),
                Err(e) => Err(e),
            },
        }
    }
}

/// The control datagram that a row of bytes holds. The protocol version is not looked
/// at. Fewer than six bytes give `UnexpectedEof`; a control byte with an unknown bit
/// and a request byte that stands for no request give `Malformed`.
pub open spec fn packet_of(bytes: Seq<u8>) -> Result<UdpControlPacketView, DecodeError> {
    if bytes.len() < HEADER_LEN {
        Err(DecodeError::UnexpectedEof)
    } else if !Control::accepts(bytes[3]) || Request::parse(bytes[4]) is None {
        Err(DecodeError::Malformed)
    } else {
        match tags_of(bytes.skip(HEADER_LEN as int)) {
            Ok(tags) => Ok(
                UdpControlPacketView {
                    seqnum: be_u16(bytes) as u16,
                    control: bytes[3],
                    request: Request::parse(bytes[4]).unwrap(),
                    alliance: bytes[5],
                    tags,
                },
            ),
            Err(e) => Err(e),
        }
    }
}

/// Whether a control datagram comes back from the wire as it went: its control byte
/// has no unknown bit, and each of its tags is sendable.
pub open spec fn sendable_packet(packet: UdpControlPacketView) -> bool {
    &&& Control::accepts(packet.control)
    &&& forall|i: int| 0 <= i < packet.tags.len() ==> sendable(#[trigger] packet.tags[i])
}

/// A row of sendable tags is read back from its wire form.
pub proof fn lemma_tags_round_trip(tags: Seq<UdpTagView>)
    requires
        forall|i: int| 0 <= i < tags.len() ==> sendable(#[trigger] tags[i]),
    ensures
        tags_of(tags_wire(tags)) == Ok::<Seq<UdpTagView>, DecodeError>(tags),
    decreases tags.len(),
{
    if tags.len() == 0 {
        assert(tags =~= Seq::empty());
    } else {
        let first = tags[0];
        let rest = tags.drop_first();
        let data = first.payload();
        let bytes = tags_wire(tags);
        lemma_tag_round_trip(first);
        assert forall|i: int| 0 <= i < rest.len() implies sendable(#[trigger] rest[i]) by {
        }
        lemma_tags_round_trip(rest);
        assert(bytes.subrange(2, 1 + bytes[0]) =~= data);
        assert(bytes.skip(1 + bytes[0]) =~= tags_wire(rest));
        assert(seq![first] + rest =~= tags);
    }
}

/// Round trip: a sendable control datagram is read back from its wire form.
pub proof fn lemma_round_trip(packet: UdpControlPacketView)
    requires
        sendable_packet(packet),
    ensures
        packet_of(packet.wire()) == Ok::<UdpControlPacketView, DecodeError>(packet),
{
    lemma_be_u16_of_bytes(packet.seqnum as int);
    lemma_tags_round_trip(packet.tags);
    assert(packet.header().len() == HEADER_LEN);
    assert(packet.wire().skip(HEADER_LEN as int) =~= tags_wire(packet.tags));
}

impl UdpControlPacket {
    /// Decodes a control datagram from the bytes of the cursor, all of them.
    pub fn decode(buf: Bytes) -> (r: Result<UdpControlPacket, DecodeError>)
        ensures
            match packet_of(unread(buf)) {
                Ok(packet) => r matches Ok(p) && p@ == packet,
                Err(e) => r matches Err(f) && f == e,
            },
    {
        let ghost bytes = unread(buf);
        let mut cursor: Bytes = buf;
        if remaining(&cursor) < HEADER_LEN {
            return Err(DecodeError::UnexpectedEof);
        }
        let seqnum: u16 = get_u16(&mut cursor);
        let _ = get_u8(&mut cursor);
        let control_bits: u8 = get_u8(&mut cursor);
        let request_bits: u8 = get_u8(&mut cursor);
        let alliance: u8 = get_u8(&mut cursor);
        assert(unread(cursor) =~= bytes.skip(HEADER_LEN as int));
        let control: Control = match Control::from_bits(control_bits) {
            Some(control) => control,
            None => {
                return Err(DecodeError::Malformed);
            },
        };
        let request: Option<Request> = if request_bits == 0 {
            None
        } else {
            match Request::from_bits(request_bits) {
                Some(request) => Some(request),
                None => {
                    return Err(DecodeError::Malformed);
                },
            }
        };
        let ghost all = bytes.skip(HEADER_LEN as int);
        let ghost head = UdpControlPacketView {
            seqnum,
            control: control@,
            request,
            alliance,
            tags: Seq::empty(),
        };
        let mut tags: Vec<UdpTag> = Vec::new();
        while remaining(&cursor) > 0
            invariant
                packet_of(unread(buf)) == match tags_of(all) {
                    Ok(found) => Ok::<UdpControlPacketView, DecodeError>(
                        UdpControlPacketView { tags: found, ..head },
                    ),
                    Err(e) => Err(e),
                },
                tags_of(all) == match tags_of(unread(cursor)) {
                    Ok(rest) => Ok::<Seq<UdpTagView>, DecodeError>(tag_views(tags@) + rest),
                    Err(e) => Err(e),
                },
            decreases unread(cursor).len(),
        {
            let ghost here = unread(cursor);
            let ghost done = tag_views(tags@);
            let size: u8 = get_u8(&mut cursor);
            if size == 0 {
                return Err(DecodeError::Malformed);
            }
            if remaining(&cursor) < size as usize {
                return Err(DecodeError::UnexpectedEof);
            }
            let id: u8 = get_u8(&mut cursor);
            let data: Vec<u8> = copy_to_vec(&mut cursor, (size - 1) as usize);
            assert(data@ =~= here.subrange(2, 1 + size));
            assert(unread(cursor) =~= here.skip(1 + size));
            let tag: UdpTag = match UdpTag::parse(id, data) {
                Some(tag) => tag,
                None => {
                    return Err(DecodeError::Malformed);
                },
            };
            let ghost view = tag@;
            tags.push(tag);
            proof {
                assert(tag_views(tags@) =~= done.push(view));
                if let Ok(rest) = tags_of(unread(cursor)) {
                    assert(done + (seq![view] + rest) =~= done.push(view) + rest);
                }
            }
        }
        Ok(UdpControlPacket { seqnum, control, request, alliance: Alliance(alliance), tags })
    }
}

} // verus!
