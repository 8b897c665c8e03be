//! Tags that the driver station sends over the reliable stream.
//!
//! On the wire a tag is a two-byte length, most significant byte first, an id byte and
//! the tag's data. The length counts the id byte and the data.

use vstd::prelude::*;
use vstd::utf8::encode_utf8;
use crate::ext::extend;
use crate::ext::u16_be_bytes;
use crate::ext::write_u16_be;

verus! {

/// The wire form of a tag with the given id and data. Of a length beyond two bytes only
/// the lowest sixteen bits are sent.
pub open spec fn framed(id: u8, data: Seq<u8>) -> Seq<u8> {
    u16_be_bytes((data.len() + 1) as int % 0x1_0000) + seq![id] + data
}

/// A tag of the reliable stream.
pub trait OutgoingTcpTag {
    /// The id of the tag.
    spec fn tag_id(&self) -> u8;

    /// The data of the tag.
    spec fn payload(&self) -> Seq<u8>;

    fn id(&self) -> (r: u8)
        ensures
            r == self.tag_id(),
    ;

    fn data(&self) -> (r: Vec<u8>)
        ensures
            r@ == self.payload(),
    ;

    /// The tag as it goes on the stream.
    fn construct(&self) -> (r: Vec<u8>)
        ensures
            r@ == framed(self.tag_id(), self.payload()),
    {
        let id: u8 = self.id();
        let data: Vec<u8> = self.data();
        let mut out: Vec<u8> = Vec::new();
        let size: u16 = ((data.len() % 0x1_0000 + 1) % 0x1_0000) as u16;
        assert(size as int == (data@.len() + 1) as int % 0x1_0000) by {
            vstd::arithmetic::div_mod::lemma_add_mod_noop(data@.len() as int, 1, 0x1_0000);
        }
        write_u16_be(&mut out, size);
        out.push(id);
        extend(&mut out, data.as_slice());
        out
    }
}

/// The kind of match that is played.
#[derive(Clone, Copy, Debug, PartialEq, Eq, Structural)]
pub enum MatchType {
    NoMatch,
    Practice,
    Qualifications,
    Eliminations,
}

impl MatchType {
    /// The byte that stands for the kind of match.
    pub open spec fn code(self) -> u8 {
        match self {
            MatchType::NoMatch => 0,
            MatchType::Practice => 1,
            MatchType::Qualifications => 2,
            MatchType::Eliminations => 3,
        }
    }

    /// The byte that stands for the kind of match.
    pub fn bits(self) -> (r: u8)
        ensures
            r == self.code(),
    {
        match self {
            MatchType::NoMatch => 0,
            MatchType::Practice => 1,
            MatchType::Qualifications => 2,
            MatchType::Eliminations => 3,
        }
    }
}

/// The competition and the kind of match that is played.
#[derive(Clone, Debug)]
pub struct MatchInfo {
    pub competition: String,
    pub match_type: MatchType,
}

/// The data of a match tag: the length of the competition's name in one byte, the name,
/// and the kind of match.
pub open spec fn match_info_payload(competition: Seq<char>, match_type: MatchType) -> Seq<u8> {
    seq![(encode_utf8(competition).len() % 0x100) as u8] + encode_utf8(competition) + seq![
        match_type.code(),
    ]
}

impl OutgoingTcpTag for MatchInfo {
    open spec fn tag_id(&self) -> u8 {
        0x07
    }

    open spec fn payload(&self) -> Seq<u8> {
        match_info_payload(self.competition@, self.match_type)
    }

    fn id(&self) -> (r: u8) {
        0x07
    }

    fn data(&self) -> (r: Vec<u8>) {
        let name: &[u8] = self.competition.as_str().as_bytes();
        let mut buf: Vec<u8> = Vec::new();
        buf.push((name.len() % 0x100) as u8);
        extend(&mut buf, name);
        buf.push(self.match_type.bits());
        buf
    }
}

/// The game-specific message that the robot code reads at the start of a match.
#[derive(Clone, Debug)]
pub struct GameData {
    pub gsm: String,
}

impl OutgoingTcpTag for GameData {
    open spec fn tag_id(&self) -> u8 {
        0x0e
    }

    open spec fn payload(&self) -> Seq<u8> {
        encode_utf8(self.gsm@)
    }

    fn id(&self) -> (r: u8) {
        0x0e
    }

    fn data(&self) -> (r: Vec<u8>) {
        let mut buf: Vec<u8> = Vec::new();
        extend(&mut buf, self.gsm.as_str().as_bytes());
        buf
    }
}

/// A tag of the reliable stream as a plain value.
pub enum TcpTagView {
    MatchInfo { competition: Seq<char>, match_type: MatchType },
    GameData { gsm: Seq<char> },
}

impl TcpTagView {
    /// The id of the tag.
    pub open spec fn id(self) -> u8 {
        match self {
            TcpTagView::MatchInfo { .. } => 0x07,
            TcpTagView::GameData { .. } => 0x0e,
        }
    }

    /// The data of the tag.
    pub open spec fn payload(self) -> Seq<u8> {
        match self {
            TcpTagView::MatchInfo { competition, match_type } => match_info_payload(
                competition,
                match_type,
            ),
            TcpTagView::GameData { gsm } => encode_utf8(gsm),
        }
    }

    /// The tag as it goes on the stream.
    pub open spec fn wire(self) -> Seq<u8> {
        framed(self.id(), self.payload())
    }
}

/// The tags that the driver station can send over the reliable stream.
#[derive(Clone, Debug)]
pub enum TcpTag {
    MatchInfo(MatchInfo),
    GameData(GameData),
}

impl View for TcpTag {
    type V = TcpTagView;

    open spec fn view(&self) -> TcpTagView {
        match self {
            TcpTag::MatchInfo(mi) => TcpTagView::MatchInfo {
                competition: mi.competition@,
                match_type: mi.match_type,
            },
            TcpTag::GameData(gd) => TcpTagView::GameData { gsm: gd.gsm@ },
        }
    }
}

impl OutgoingTcpTag for TcpTag {
    open spec fn tag_id(&self) -> u8 {
        self@.id()
    }

    open spec fn payload(&self) -> Seq<u8> {
        self@.payload()
    }

    fn id(&self) -> (r: u8) {
        match self {
            TcpTag::MatchInfo(mi) => mi.id(),
            TcpTag::GameData(gd) => gd.id(),
        }
    }

    fn data(&self) -> (r: Vec<u8>) {
        match self {
            TcpTag::MatchInfo(mi) => mi.data(),
            TcpTag::GameData(gd) => gd.data(),
        }
    }
}

/// The plain values of a row of tags.
pub open spec fn tag_views(tags: Seq<TcpTag>) -> Seq<TcpTagView> {
    tags.map_values(|t: TcpTag| t@)
}

/// The role of a joystick axis.
#[derive(Clone, Copy, Debug, PartialEq, Eq, Structural)]
pub enum AxisType {
    XAxis,
    YAxis,
    ZAxis,
    TwistAxis,
    ThrottleAxis,
}

impl AxisType {
    /// The byte that stands for the role.
    pub fn bits(self) -> (r: u8)
        ensures
            r == match self {
                AxisType::XAxis => 0u8,
                AxisType::YAxis => 1u8,
                AxisType::ZAxis => 2u8,
                AxisType::TwistAxis => 3u8,
                AxisType::ThrottleAxis => 4u8,
            },
    {
        match self {
            AxisType::XAxis => 0,
            AxisType::YAxis => 1,
            AxisType::ZAxis => 2,
            AxisType::TwistAxis => 3,
            AxisType::ThrottleAxis => 4,
        }
    }
}

/// The kind of device that a joystick is.
#[derive(Clone, Copy, Debug, PartialEq, Eq, Structural)]
pub enum JoystickType {
    Unknown,
    XinputUnknown,
    XinputGamepad,
    XinputWheel,
    XinputArcade,
    XinputFlightStick,
    XinputDancePad,
    XinputGuitar,
    XinputGuitar2,
    XinputDrumKit,
    XinputGuitar3,
    XinputAracadePad,
    HIDJoystick,
    HIDGamepad,
    HIDDriving,
    HIDFlight,
    HID1stPerson,
}

impl JoystickType {
    /// The signed byte that stands for the kind of device.
    pub fn bits(self) -> (r: i8)
        ensures
            r == match self {
                JoystickType::Unknown => -1i8,
                JoystickType::XinputUnknown => 0i8,
                JoystickType::XinputGamepad => 1i8,
                JoystickType::XinputWheel => 2i8,
                JoystickType::XinputArcade => 3i8,
                JoystickType::XinputFlightStick => 4i8,
                JoystickType::XinputDancePad => 5i8,
                JoystickType::XinputGuitar => 6i8,
                JoystickType::XinputGuitar2 => 7i8,
                JoystickType::XinputDrumKit => 8i8,
                JoystickType::XinputGuitar3 => 11i8,
                JoystickType::XinputAracadePad => 19i8,
                JoystickType::HIDJoystick => 20i8,
                JoystickType::HIDGamepad => 21i8,
                JoystickType::HIDDriving => 22i8,
                JoystickType::HIDFlight => 23i8,
                JoystickType::HID1stPerson => 24i8,
            },
    {
        match self {
            JoystickType::Unknown => -1,
            JoystickType::XinputUnknown => 0,
            JoystickType::XinputGamepad => 1,
            JoystickType::XinputWheel => 2,
            JoystickType::XinputArcade => 3,
            JoystickType::XinputFlightStick => 4,
            JoystickType::XinputDancePad => 5,
            JoystickType::XinputGuitar => 6,
            JoystickType::XinputGuitar2 => 7,
            JoystickType::XinputDrumKit => 8,
            JoystickType::XinputGuitar3 => 11,
            JoystickType::XinputAracadePad => 19,
            JoystickType::HIDJoystick => 20,
            JoystickType::HIDGamepad => 21,
            JoystickType::HIDDriving => 22,
            JoystickType::HIDFlight => 23,
            JoystickType::HID1stPerson => 24,
        }
    }
}

/// What the driver station knows of an attached joystick.
#[derive(Clone, Debug)]
pub struct JoystickDescriptor {
    pub index: u8,
    pub is_xbox: bool,
    pub joystick_type: JoystickType,
    pub name: String,
}

/// The head of a message on the reliable stream.
#[derive(Clone, Copy, Debug, PartialEq, Eq, Structural)]
pub struct TcpControlPacket {
    pub id: u8,
}

} // verus!
