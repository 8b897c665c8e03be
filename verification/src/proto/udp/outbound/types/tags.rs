//! Tags that may follow the fixed part of a control datagram.
//!
//! On the wire a tag is a size byte, an id byte and the tag's data. The size byte counts
//! the id byte and the data.

use vstd::prelude::*;
use vstd::utf8::decode_utf8;
use vstd::utf8::encode_utf8;
use vstd::utf8::valid_utf8;
use crate::ext::be_u16;
use crate::ext::be_u32;
use crate::ext::extend;
use crate::ext::lemma_be_u32_of_bytes;
use crate::ext::signed;
use crate::ext::u16_be_bytes;
use crate::ext::u32_be_bytes;
use crate::ext::unsigned;
use crate::ext::write_i16_be;
use crate::ext::write_i8;
use crate::ext::write_u32_be;
use crate::ext::write_u8;
use crate::text::string_from_utf8;
use crate::util::bit;
use crate::util::group_byte;
use crate::util::lemma_group_byte_bits;
use crate::util::packed_buttons;
use crate::util::to_u8_vec;

verus! {

/// The wire form of a tag with the given id and data. Size and id are single bytes: of a
/// larger number only the lowest eight bits are sent.
pub open spec fn framed(id: int, data: Seq<u8>) -> Seq<u8> {
    seq![((data.len() + 1) % 0x100) as u8, (id % 0x100) as u8] + data
}

/// A tag of the control datagram.
pub trait Tag {
    /// The id of the tag.
    spec fn tag_id(&self) -> int;

    /// The data of the tag.
    spec fn payload(&self) -> Seq<u8>;

    fn id(&self) -> (r: usize)
        ensures
            r == self.tag_id(),
    ;

    fn data(&self) -> (r: Vec<u8>)
        ensures
            r@ == self.payload(),
    ;

    /// The tag as it stands in the datagram.
    fn construct(&self) -> (r: Vec<u8>)
        ensures
            r@ == framed(self.tag_id(), self.payload()),
    {
        let id: usize = self.id();
        let data: Vec<u8> = self.data();
        let mut buf: Vec<u8> = Vec::new();
        let size: u8 = ((data.len() % 0x100 + 1) % 0x100) as u8;
        assert(size as int == (data@.len() + 1) % 0x100) by {
            vstd::arithmetic::div_mod::lemma_add_mod_noop(data@.len() as int, 1, 0x100);
        }
        buf.push(size);
        buf.push((id % 0x100) as u8);
        extend(&mut buf, data.as_slice());
        buf
    }
}

/// Tells the robot code how much time is left in the current mode.
#[derive(Clone, Copy, Debug, PartialEq, Eq, Structural)]
pub struct Countdown {
    /// The seconds that remain, as the bit pattern of a single-precision number.
    pub seconds_remaining: u32,
}

impl Countdown {
    /// A countdown of the seconds whose single-precision bit pattern is `seconds`.
    pub fn new(seconds: u32) -> (r: Countdown)
        ensures
            r.seconds_remaining == seconds,
    {
        Countdown { seconds_remaining: seconds }
    }
}

impl Tag for Countdown {
    open spec fn tag_id(&self) -> int {
        0x07
    }

    /// The four bytes of the bit pattern, most significant first: the big-endian form
    /// of the single-precision number.
    open spec fn payload(&self) -> Seq<u8> {
        u32_be_bytes(self.seconds_remaining as int)
    }

    fn id(&self) -> (r: usize) {
        0x07
    }

    fn data(&self) -> (r: Vec<u8>) {
        let mut buf: Vec<u8> = Vec::with_capacity(2);
        write_u32_be(&mut buf, self.seconds_remaining);
        buf
    }
}

/// The values of one joystick as plain sequences.
pub struct JoysticksView {
    pub axes: Seq<i8>,
    pub buttons: Seq<bool>,
    pub povs: Seq<i16>,
}

/// The bytes of a row of axis values: the two's complement byte of each.
pub open spec fn axes_bytes(axes: Seq<i8>) -> Seq<u8> {
    Seq::new(axes.len(), |i: int| unsigned(axes[i] as int, 0x100) as u8)
}

/// The bytes of a row of angles: two bytes for each, most significant first.
pub open spec fn povs_bytes(povs: Seq<i16>) -> Seq<u8> {
    Seq::new(2 * povs.len(), |i: int| u16_be_bytes(unsigned(povs[i / 2] as int, 0x1_0000))[i % 2])
}

/// The data of a joystick tag: the number of axes and their values, the constant ten and
/// the packed buttons, the number of angles and their values.
pub open spec fn joysticks_payload(joy: JoysticksView) -> Seq<u8> {
    seq![(joy.axes.len() % 0x100) as u8] + axes_bytes(joy.axes) + seq![10u8] + packed_buttons(
        joy.buttons,
    ) + seq![(joy.povs.len() % 0x100) as u8] + povs_bytes(joy.povs)
}

/// Carries the values of one joystick to the robot code.
#[derive(Clone, Debug)]
pub struct Joysticks {
    pub axes: Vec<i8>,
    pub buttons: Vec<bool>,
    pub povs: Vec<i16>,
}

impl View for Joysticks {
    type V = JoysticksView;

    open spec fn view(&self) -> JoysticksView {
        JoysticksView { axes: self.axes@, buttons: self.buttons@, povs: self.povs@ }
    }
}

impl Joysticks {
    pub fn new(axes: Vec<i8>, buttons: Vec<bool>, povs: Vec<i16>) -> (r: Joysticks)
        ensures
            r@ == (JoysticksView { axes: axes@, buttons: buttons@, povs: povs@ }),
    {
        Joysticks { axes, buttons, povs }
    }
}

impl Tag for Joysticks {
    open spec fn tag_id(&self) -> int {
        0x0c
    }

    open spec fn payload(&self) -> Seq<u8> {
        joysticks_payload(self@)
    }

    fn id(&self) -> (r: usize) {
        0x0c
    }

    fn data(&self) -> (r: Vec<u8>) {
        let mut buf: Vec<u8> = Vec::new();
        write_u8(&mut buf, (self.axes.len() % 0x100) as u8);
        let ghost head = buf@;
        let mut i: usize = 0;
        while i < self.axes.len()
            invariant
                i <= self.axes@.len(),
                buf@ == head + axes_bytes(self.axes@.take(i as int)),
            decreases self.axes@.len() - i,
        {
            write_i8(&mut buf, self.axes[i]);
            i = i + 1;
        }
        assert(self.axes@.take(i as int) =~= self.axes@);
        let buttons: Vec<u8> = to_u8_vec(self.buttons.as_slice());
        buf.push(10);
        extend(&mut buf, buttons.as_slice());
        buf.push((self.povs.len() % 0x100) as u8);
        let ghost head = buf@;
        let mut k: usize = 0;
        while k < self.povs.len()
            invariant
                k <= self.povs@.len(),
                buf@ == head + povs_bytes(self.povs@.take(k as int)),
            decreases self.povs@.len() - k,
        {
            write_i16_be(&mut buf, self.povs[k]);
            k = k + 1;
        }
        assert(buf@ =~= self.payload());
        buf
    }
}

/// Sets the controller's clock. All fields are in UTC.
#[derive(Clone, Copy, Debug, PartialEq, Eq, Structural)]
pub struct DateTime {
    pub micros: u32,
    pub second: u8,
    pub minute: u8,
    pub hour: u8,
    pub day: u8,
    /// The month, counted from zero.
    pub month: u8,
    /// The years since 1900.
    pub year: u8,
}

impl DateTime {
    pub fn new(micros: u32, second: u8, minute: u8, hour: u8, day: u8, month: u8, year: u8) -> (r:
        DateTime)
        ensures
            r == (DateTime { micros, second, minute, hour, day, month, year }),
    {
        DateTime { micros, second, minute, hour, day, month, year }
    }
}

impl Tag for DateTime {
    open spec fn tag_id(&self) -> int {
        0x0f
    }

    open spec fn payload(&self) -> Seq<u8> {
        u32_be_bytes(self.micros as int) + seq![
            self.second,
            self.minute,
            self.hour,
            self.day,
            self.month,
            self.year,
        ]
    }

    fn id(&self) -> (r: usize) {
        0x0f
    }

    fn data(&self) -> (r: Vec<u8>) {
        let mut buf: Vec<u8> = Vec::new();
        write_u32_be(&mut buf, self.micros);
        buf.push(self.second);
        buf.push(self.minute);
        buf.push(self.hour);
        buf.push(self.day);
        buf.push(self.month);
        buf.push(self.year);
        buf
    }
}

/// Sets the controller's time zone. It is sent alongside the date.
#[derive(Clone, Debug)]
pub struct Timezone {
    /// The name of the zone.
    pub tz: String,
}

impl View for Timezone {
    type V = Seq<char>;

    open spec fn view(&self) -> Seq<char> {
        self.tz@
    }
}

impl Timezone {
    pub fn new(tz: &str) -> (r: Timezone)
        ensures
            r@ == tz@,
    {
        Timezone { tz: tz.to_owned() }
    }
}

impl Tag for Timezone {
    open spec fn tag_id(&self) -> int {
        0x10
    }

    open spec fn payload(&self) -> Seq<u8> {
        encode_utf8(self@)
    }

    fn id(&self) -> (r: usize) {
        0x10
    }

    fn data(&self) -> (r: Vec<u8>) {
        let mut buf: Vec<u8> = Vec::new();
        extend(&mut buf, self.tz.as_str().as_bytes());
        buf
    }
}

/// A tag of the control datagram as a plain value.
pub enum UdpTagView {
    Countdown(Countdown),
    Joysticks(JoysticksView),
    DateTime(DateTime),
    Timezone(Seq<char>),
}

/// The tags that a control datagram can carry.
#[derive(Clone, Debug)]
pub enum UdpTag {
    /// Tells the robot code how much time is left in the current mode.
    Countdown(Countdown),
    /// Carries the values of one joystick to the robot code.
    Joysticks(Joysticks),
    /// Sets the controller's clock.
    DateTime(DateTime),
    /// Sets the controller's time zone.
    Timezone(Timezone),
}

impl View for UdpTag {
    type V = UdpTagView;

    open spec fn view(&self) -> UdpTagView {
        match self {
            UdpTag::Countdown(c) => UdpTagView::Countdown(*c),
            UdpTag::Joysticks(j) => UdpTagView::Joysticks(j@),
            UdpTag::DateTime(d) => UdpTagView::DateTime(*d),
            UdpTag::Timezone(t) => UdpTagView::Timezone(t@),
        }
    }
}

impl UdpTagView {
    /// The id of the tag.
    pub open spec fn id(self) -> int {
        match self {
            UdpTagView::Countdown(_) => 0x07,
            UdpTagView::Joysticks(_) => 0x0c,
            UdpTagView::DateTime(_) => 0x0f,
            UdpTagView::Timezone(_) => 0x10,
        }
    }

    /// The data of the tag.
    pub open spec fn payload(self) -> Seq<u8> {
        match self {
            UdpTagView::Countdown(c) => c.payload(),
            UdpTagView::Joysticks(j) => joysticks_payload(j),
            UdpTagView::DateTime(d) => d.payload(),
            UdpTagView::Timezone(t) => encode_utf8(t),
        }
    }

    /// The tag as it stands in the datagram.
    pub open spec fn wire(self) -> Seq<u8> {
        framed(self.id(), self.payload())
    }
}

impl Tag for UdpTag {
    open spec fn tag_id(&self) -> int {
        self@.id()
    }

    open spec fn payload(&self) -> Seq<u8> {
        self@.payload()
    }

    fn id(&self) -> (r: usize) {
        match self {
            UdpTag::Countdown(c) => c.id(),
            UdpTag::Joysticks(j) => j.id(),
            UdpTag::DateTime(d) => d.id(),
            UdpTag::Timezone(t) => t.id(),
        }
    }

    fn data(&self) -> (r: Vec<u8>) {
        match self {
            UdpTag::Countdown(c) => c.data(),
            UdpTag::Joysticks(j) => j.data(),
            UdpTag::DateTime(d) => d.data(),
            UdpTag::Timezone(t) => t.data(),
        }
    }
}

/// The number of buttons that the button bytes of a joystick tag are read as.
pub const BUTTON_COUNT: usize = 10;

/// The most data that a tag can hold: the size byte counts the id byte too.
pub const MAX_PAYLOAD: usize = 254;

/// Whether a tag comes back from the wire as it went: its data fit the size byte, and
/// a joystick tag has the ten buttons that its data state.
pub open spec fn sendable(tag: UdpTagView) -> bool {
    tag.payload().len() <= MAX_PAYLOAD && (tag matches UdpTagView::Joysticks(joy)
        ==> joy.buttons.len() == BUTTON_COUNT)
}

/// Button `i` of the ten in the data of a joystick tag with `axes` axes: the two button
/// bytes hold the last eight buttons first.
pub open spec fn button_of(data: Seq<u8>, axes: int, i: int) -> bool {
    bit(data[axes + 3 - i / 8], (i % 8) as u8)
}

/// The joystick values that the data of a tag hold, if they have that form.
pub open spec fn joysticks_of(data: Seq<u8>) -> Option<JoysticksView> {
    if data.len() < 1 {
        None
    } else {
        let axes = data[0] as int;
        if data.len() < axes + 5 || data[axes + 1] != BUTTON_COUNT {
            None
        } else {
            let povs = data[axes + 4] as int;
            if data.len() != axes + 5 + 2 * povs {
                None
            } else {
                Some(
                    JoysticksView {
                        axes: Seq::new(axes as nat, |i: int| signed(data[1 + i] as int, 0x100) as i8),
                        buttons: Seq::new(BUTTON_COUNT as nat, |i: int| button_of(data, axes, i)),
                        povs: Seq::new(
                            povs as nat,
                            |i: int| signed(be_u16(data.skip(axes + 5 + 2 * i)), 0x1_0000) as i16,
                        ),
                    },
                )
            }
        }
    }
}

/// The date that the ten bytes of the data of a tag hold.
pub open spec fn date_of(data: Seq<u8>) -> DateTime {
    DateTime {
        micros: be_u32(data) as u32,
        second: data[4],
        minute: data[5],
        hour: data[6],
        day: data[7],
        month: data[8],
        year: data[9],
    }
}

/// The tag with the given id and data, if the id is known and the data have the form
/// that it asks for.
pub open spec fn tag_of(id: u8, data: Seq<u8>) -> Option<UdpTagView> {
    if id == 0x07 {
        if data.len() == 4 {
            Some(UdpTagView::Countdown(Countdown { seconds_remaining: be_u32(data) as u32 }))
        } else {
            None
        }
    } else if id == 0x0c {
        match joysticks_of(data) {
            Some(joy) => Some(UdpTagView::Joysticks(joy)),
            None => None,
        }
    } else if id == 0x0f {
        if data.len() == 10 {
            Some(UdpTagView::DateTime(date_of(data)))
        } else {
            None
        }
    } else if id == 0x10 {
        if valid_utf8(data) {
            Some(UdpTagView::Timezone(decode_utf8(data)))
        } else {
            None
        }
    } else {
        None
    }
}

/// Where each part of the data of a joystick tag stands.
proof fn lemma_joysticks_layout(joy: JoysticksView)
    requires
        joy.buttons.len() == BUTTON_COUNT,
    ensures
        joysticks_payload(joy).len() == joy.axes.len() + 5 + 2 * joy.povs.len(),
        joysticks_payload(joy)[0] == (joy.axes.len() % 0x100) as u8,
        forall|i: int|
            0 <= i < joy.axes.len() ==> #[trigger] joysticks_payload(joy)[1 + i] == axes_bytes(
                joy.axes,
            )[i],
        joysticks_payload(joy)[joy.axes.len() as int + 1] == 10,
        joysticks_payload(joy)[joy.axes.len() as int + 2] == group_byte(joy.buttons, 1) as u8,
        joysticks_payload(joy)[joy.axes.len() as int + 3] == group_byte(joy.buttons, 0) as u8,
        joysticks_payload(joy)[joy.axes.len() as int + 4] == (joy.povs.len() % 0x100) as u8,
        forall|k: int|
            0 <= k < 2 * joy.povs.len() ==> #[trigger] joysticks_payload(joy)[joy.axes.len() + 5
                + k] == povs_bytes(joy.povs)[k],
{
    let n = joy.axes.len() as int;
    let counted = seq![(joy.axes.len() % 0x100) as u8] + axes_bytes(joy.axes);
    let marked = counted + seq![10u8];
    let packed = packed_buttons(joy.buttons);
    let buttoned = marked + packed;
    let angled = buttoned + seq![(joy.povs.len() % 0x100) as u8];
    let whole = angled + povs_bytes(joy.povs);
    assert forall|i: int| 0 <= i < n implies #[trigger] whole[1 + i] == axes_bytes(joy.axes)[i] by {
    }
}

/// Axis values are read back from their bytes.
proof fn lemma_axes_back(data: Seq<u8>, axes: Seq<i8>)
    requires
        data.len() > axes.len(),
        forall|i: int| 0 <= i < axes.len() ==> #[trigger] data[1 + i] == axes_bytes(axes)[i],
    ensures
        Seq::new(axes.len(), |i: int| signed(data[1 + i] as int, 0x100) as i8) == axes,
{
    let back = Seq::new(axes.len(), |i: int| signed(data[1 + i] as int, 0x100) as i8);
    assert forall|i: int| 0 <= i < axes.len() implies back[i] == axes[i] by {
    }
    assert(back =~= axes);
}

/// Ten buttons are read back from their two bytes.
proof fn lemma_buttons_back(data: Seq<u8>, axes: int, buttons: Seq<bool>)
    requires
        buttons.len() == BUTTON_COUNT,
        0 <= axes,
        data.len() > axes + 3,
        data[axes + 2] == group_byte(buttons, 1) as u8,
        data[axes + 3] == group_byte(buttons, 0) as u8,
    ensures
        Seq::new(BUTTON_COUNT as nat, |i: int| button_of(data, axes, i)) == buttons,
{
    let back = Seq::new(BUTTON_COUNT as nat, |i: int| button_of(data, axes, i));
    lemma_group_byte_bits(buttons, 0);
    lemma_group_byte_bits(buttons, 1);
    assert forall|i: int| 0 <= i < 10 implies back[i] == buttons[i] by {
        let g = i / 8;
        let j = (i % 8) as u8;
        assert(8 * g + j == i);
    }
}

/// Angles are read back from their bytes.
proof fn lemma_povs_back(data: Seq<u8>, axes: int, povs: Seq<i16>)
    requires
        0 <= axes,
        data.len() == axes + 5 + 2 * povs.len(),
        forall|k: int|
            0 <= k < 2 * povs.len() ==> #[trigger] data[axes + 5 + k] == povs_bytes(povs)[k],
    ensures
        Seq::new(
            povs.len(),
            |i: int| signed(be_u16(data.skip(axes + 5 + 2 * i)), 0x1_0000) as i16,
        ) == povs,
{
    let back = Seq::new(
        povs.len(),
        |i: int| signed(be_u16(data.skip(axes + 5 + 2 * i)), 0x1_0000) as i16,
    );
    assert forall|i: int| 0 <= i < povs.len() implies back[i] == povs[i] by {
        let at = data.skip(axes + 5 + 2 * i);
        let pattern = unsigned(povs[i] as int, 0x1_0000);
        assert(at[0] == data[axes + 5 + 2 * i]);
        assert(at[1] == data[axes + 5 + (2 * i + 1)]);
        assert(be_u16(at) == pattern);
    }
}

/// The data of a sendable joystick tag are read back as the tag.
proof fn lemma_joysticks_round_trip(joy: JoysticksView)
    requires
        sendable(UdpTagView::Joysticks(joy)),
    ensures
        joysticks_of(joysticks_payload(joy)) == Some(joy),
{
    lemma_joysticks_layout(joy);
    let data = joysticks_payload(joy);
    let axes = joy.axes.len() as int;
    let povs = joy.povs.len() as int;
    assert(data.len() <= MAX_PAYLOAD);
    assert(data[0] as int == axes);
    lemma_axes_back(data, joy.axes);
    lemma_buttons_back(data, axes, joy.buttons);
    lemma_povs_back(data, axes, joy.povs);
}

/// The id and the data of a sendable tag are read back as the tag.
pub proof fn lemma_tag_round_trip(tag: UdpTagView)
    requires
        sendable(tag),
    ensures
        0 <= tag.id() < 0x100,
        tag_of(tag.id() as u8, tag.payload()) == Some(tag),
{
    match tag {
        UdpTagView::Countdown(c) => {
            lemma_be_u32_of_bytes(c.seconds_remaining);
        },
        UdpTagView::Joysticks(joy) => {
            lemma_joysticks_round_trip(joy);
        },
        UdpTagView::DateTime(d) => {
            lemma_be_u32_of_bytes(d.micros);
            assert(d.payload().len() == 10);
        },
        UdpTagView::Timezone(tz) => {
            vstd::utf8::encode_utf8_valid_utf8(tz);
            vstd::utf8::encode_utf8_decode_utf8(tz);
        },
    }
}

/// Reads the joystick values from the data of a tag.
fn parse_joysticks(data: &Vec<u8>) -> (r: Option<Joysticks>)
    ensures
        match joysticks_of(data@) {
            Some(joy) => r matches Some(j) && j@ == joy,
            None => r is None,
        },
{
    if data.len() < 1 {
        return None;
    }
    let count: usize = data[0] as usize;
    if data.len() < count + 5 || data[count + 1] != 10 {
        return None;
    }
    let angles: usize = data[count + 4] as usize;
    if data.len() != count + 5 + 2 * angles {
        return None;
    }
    let ghost joy = joysticks_of(data@).unwrap();
    let mut axes: Vec<i8> = Vec::new();
    let mut i: usize = 0;
    while i < count
        invariant
            i <= count,
            count + 5 <= data@.len(),
            joy.axes.len() == count,
            forall|k: int| 0 <= k < count ==> joy.axes[k] == signed(data@[1 + k] as int, 0x100) as i8,
            axes@ == joy.axes.take(i as int),
        decreases count - i,
    {
        let byte: u8 = data[1 + i];
        let value: i8 = if byte >= 128 {
            (byte as i16 - 256) as i8
        } else {
            byte as i8
        };
        axes.push(value);
        i = i + 1;
    }
    assert(joy.axes.take(i as int) =~= joy.axes);
    let mut buttons: Vec<bool> = Vec::new();
    let mut b: usize = 0;
    while b < 10
        invariant
            b <= 10,
            count < 0x100,
            count + 5 <= data@.len(),
            joy.buttons.len() == 10,
            forall|k: int| 0 <= k < 10 ==> joy.buttons[k] == button_of(data@, count as int, k),
            buttons@ == joy.buttons.take(b as int),
        decreases 10 - b,
    {
        let byte: u8 = data[count + 3 - b / 8];
        let place: u8 = (b % 8) as u8;
        buttons.push((byte >> place) & 1 == 1);
        b = b + 1;
    }
    assert(joy.buttons.take(b as int) =~= joy.buttons);
    let mut povs: Vec<i16> = Vec::new();
    let mut p: usize = 0;
    while p < angles
        invariant
            p <= angles,
            count < 0x100,
            angles < 0x100,
            data@.len() == count + 5 + 2 * angles,
            joy.povs.len() == angles,
            forall|k: int|
                0 <= k < angles ==> joy.povs[k] == signed(
                    be_u16(data@.skip(count + 5 + 2 * k)),
                    0x1_0000,
                ) as i16,
            povs@ == joy.povs.take(p as int),
        decreases angles - p,
    {
        let at: usize = count + 5 + 2 * p;
        let pattern: u16 = data[at] as u16 * 0x100 + data[at + 1] as u16;
        let value: i16 = if pattern >= 0x8000 {
            (pattern as i32 - 0x1_0000) as i16
        } else {
            pattern as i16
        };
        povs.push(value);
        p = p + 1;
    }
    assert(joy.povs.take(p as int) =~= joy.povs);
    Some(Joysticks::new(axes, buttons, povs))
}

/// The number that four bytes hold, most significant byte first.
fn parse_u32(data: &Vec<u8>) -> (r: u32)
    requires
        data@.len() >= 4,
    ensures
        r == be_u32(data@),
{
    data[0] as u32 * 0x100_0000 + data[1] as u32 * 0x1_0000 + data[2] as u32 * 0x100
        + data[3] as u32
}

impl UdpTag {
    /// Reads a tag from its id and its data.
    pub fn parse(id: u8, data: Vec<u8>) -> (r: Option<UdpTag>)
        ensures
            match tag_of(id, data@) {
                Some(tag) => r matches Some(t) && t@ == tag,
                None => r is None,
            },
    {
        if id == 0x07 {
            if data.len() == 4 {
                Some(UdpTag::Countdown(Countdown::new(parse_u32(&data))))
            } else {
                None
            }
        } else if id == 0x0c {
            match parse_joysticks(&data) {
                Some(joy) => Some(UdpTag::Joysticks(joy)),
                None => None,
            }
        } else if id == 0x0f {
            if data.len() == 10 {
                Some(
                    UdpTag::DateTime(
                        DateTime::new(
                            parse_u32(&data),
                            data[4],
                            data[5],
                            data[6],
                            data[7],
                            data[8],
                            data[9],
                        ),
                    ),
                )
            } else {
                None
            }
        } else if id == 0x10 {
            match string_from_utf8(data) {
                Some(tz) => Some(UdpTag::Timezone(Timezone { tz })),
                None => None,
            }
        } else {
            None
        }
    }
}

} // verus!
