//! Bit packing of joystick buttons and derivation of the controller's address.

use vstd::prelude::*;
use vstd::utf8::*;
use crate::text::ascii_bytes;
use crate::text::string_of_ascii;

verus! {

/// Bit `i` of `byte`, counted from the least significant.
pub open spec fn bit(byte: u8, i: u8) -> bool {
    (byte >> i) & 1 == 1
}

/// Whether button `i` is pressed. A button beyond the last counts as released.
pub open spec fn pressed(buttons: Seq<bool>, i: int) -> bool {
    0 <= i < buttons.len() && buttons[i]
}

/// One if button `i` is pressed, zero otherwise.
pub open spec fn pressed_bit(buttons: Seq<bool>, i: int) -> int {
    if pressed(buttons, i) {
        1
    } else {
        0
    }
}

/// The byte for the buttons `8 * group` to `8 * group + 7`: the first of them in the
/// least significant bit.
pub open spec fn group_byte(buttons: Seq<bool>, group: int) -> int {
    pressed_bit(buttons, 8 * group) + 2 * pressed_bit(buttons, 8 * group + 1) + 4 * pressed_bit(
        buttons,
        8 * group + 2,
    ) + 8 * pressed_bit(buttons, 8 * group + 3) + 16 * pressed_bit(buttons, 8 * group + 4) + 32
        * pressed_bit(buttons, 8 * group + 5) + 64 * pressed_bit(buttons, 8 * group + 6) + 128
        * pressed_bit(buttons, 8 * group + 7)
}

/// The number of bytes that `n` buttons take.
pub open spec fn group_count(n: nat) -> nat {
    (n + 7) / 8
}

/// The wire form of a row of buttons: one byte for every eight buttons, the byte of the
/// last eight first.
pub open spec fn packed_buttons(buttons: Seq<bool>) -> Seq<u8> {
    Seq::new(
        group_count(buttons.len()),
        |k: int| group_byte(buttons, group_count(buttons.len()) - 1 - k) as u8,
    )
}

/// The first `count` buttons of a group read as a binary number, the first button in the
/// most significant place.
pub open spec fn leading_value(buttons: Seq<bool>, start: int, count: nat) -> int
    decreases count,
{
    if count == 0 {
        0
    } else {
        2 * leading_value(buttons, start, (count - 1) as nat) + pressed_bit(
            buttons,
            start + count - 1,
        )
    }
}

/// Translates button values into the bytes that the controller expects.
pub fn to_u8_vec(vec_in: &[bool]) -> (r: Vec<u8>)
    ensures
        r@ == packed_buttons(vec_in@),
{
    let len: usize = vec_in.len();
    let total: usize = len / 8 + if len % 8 == 0 {
        0
    } else {
        1
    };
    let mut groups: Vec<u8> = Vec::new();
    let mut g: usize = 0;
    while g < total
        invariant
            len == vec_in@.len(),
            total == group_count(len as nat),
            g <= total,
            groups@.len() == g,
            forall|t: int| 0 <= t < g ==> groups@[t] == group_byte(vec_in@, t) as u8,
        decreases total - g,
    {
        let i: usize = g * 8;
        let mut num: u8 = 0;
        let mut j: usize = 0;
        while j < 8
            invariant
                len == vec_in@.len(),
                i < len,
                j <= 8,
                num as int == leading_value(vec_in@, i as int, j as nat),
                j < 8 ==> num < 128,
            decreases 8 - j,
        {
            let down: bool = j < len - i && vec_in[i + j];
            let low: u8 = if down {
                1
            } else {
                0
            };
            assert(((num << 1u8) | low) as int == 2 * (num as int) + low as int) by (bit_vector)
                requires
                    num < 128,
                    low <= 1,
            ;
            proof {
                lemma_leading_value_bound(vec_in@, i as int, (j + 1) as nat);
            }
            num = (num << 1) | low;
            j = j + 1;
        }
        let byte: u8 = reverse_byte(num);
        proof {
            lemma_group_byte(vec_in@, g as int, num, byte);
        }
        groups.push(byte);
        g = g + 1;
    }
    let count: usize = groups.len();
    let mut out: Vec<u8> = Vec::new();
    let mut k: usize = 0;
    while k < count
        invariant
            count == groups@.len(),
            k <= count,
            out@.len() == k,
            forall|t: int| 0 <= t < k ==> out@[t] == groups@[count - 1 - t],
        decreases count - k,
    {
        out.push(groups[count - 1 - k]);
        k = k + 1;
    }
    out
}

/// A binary number of `count` digits is below two to the power of `count`.
proof fn lemma_leading_value_bound(buttons: Seq<bool>, start: int, count: nat)
    requires
        count <= 8,
    ensures
        0 <= leading_value(buttons, start, count),
        count == 0 ==> leading_value(buttons, start, count) < 1,
        count == 1 ==> leading_value(buttons, start, count) < 2,
        count == 2 ==> leading_value(buttons, start, count) < 4,
        count == 3 ==> leading_value(buttons, start, count) < 8,
        count == 4 ==> leading_value(buttons, start, count) < 16,
        count == 5 ==> leading_value(buttons, start, count) < 32,
        count == 6 ==> leading_value(buttons, start, count) < 64,
        count == 7 ==> leading_value(buttons, start, count) < 128,
        count == 8 ==> leading_value(buttons, start, count) < 256,
    decreases count,
{
    if count > 0 {
        lemma_leading_value_bound(buttons, start, (count - 1) as nat);
    }
}

/// Reversing the bits of a group read most significant first gives the group's byte.
proof fn lemma_group_byte(buttons: Seq<bool>, group: int, num: u8, byte: u8)
    requires
        num as int == leading_value(buttons, 8 * group, 8),
        forall|i: u8| i < 8 ==> bit(byte, i) == bit(num, (7 - i) as u8),
    ensures
        byte as int == group_byte(buttons, group),
{
    reveal_with_fuel(leading_value, 9);
    let b0: u8 = pressed_bit(buttons, 8 * group) as u8;
    let b1: u8 = pressed_bit(buttons, 8 * group + 1) as u8;
    let b2: u8 = pressed_bit(buttons, 8 * group + 2) as u8;
    let b3: u8 = pressed_bit(buttons, 8 * group + 3) as u8;
    let b4: u8 = pressed_bit(buttons, 8 * group + 4) as u8;
    let b5: u8 = pressed_bit(buttons, 8 * group + 5) as u8;
    let b6: u8 = pressed_bit(buttons, 8 * group + 6) as u8;
    let b7: u8 = pressed_bit(buttons, 8 * group + 7) as u8;
    assert(bit(byte, 0) == bit(num, 7) && bit(byte, 1) == bit(num, 6) && bit(byte, 2) == bit(
        num,
        5,
    ) && bit(byte, 3) == bit(num, 4) && bit(byte, 4) == bit(num, 3) && bit(byte, 5) == bit(num, 2)
        && bit(byte, 6) == bit(num, 1) && bit(byte, 7) == bit(num, 0));
    assert(byte as int == b0 + 2 * b1 + 4 * b2 + 8 * b3 + 16 * b4 + 32 * b5 + 64 * b6 + 128 * b7)
        by (bit_vector)
        requires
            b0 <= 1 && b1 <= 1 && b2 <= 1 && b3 <= 1 && b4 <= 1 && b5 <= 1 && b6 <= 1 && b7 <= 1,
            num as int == 128 * b0 + 64 * b1 + 32 * b2 + 16 * b3 + 8 * b4 + 4 * b5 + 2 * b6 + b7,
            ((byte >> 0u8) & 1 == 1) == ((num >> 7u8) & 1 == 1),
            ((byte >> 1u8) & 1 == 1) == ((num >> 6u8) & 1 == 1),
            ((byte >> 2u8) & 1 == 1) == ((num >> 5u8) & 1 == 1),
            ((byte >> 3u8) & 1 == 1) == ((num >> 4u8) & 1 == 1),
            ((byte >> 4u8) & 1 == 1) == ((num >> 3u8) & 1 == 1),
            ((byte >> 5u8) & 1 == 1) == ((num >> 2u8) & 1 == 1),
            ((byte >> 6u8) & 1 == 1) == ((num >> 1u8) & 1 == 1),
            ((byte >> 7u8) & 1 == 1) == ((num >> 0u8) & 1 == 1),
    ;
}

/// Bit `j` of a group's byte says whether the group's button `j` is pressed.
pub proof fn lemma_group_byte_bits(buttons: Seq<bool>, group: int)
    ensures
        0 <= group_byte(buttons, group) < 0x100,
        forall|j: u8|
            j < 8 ==> #[trigger] bit(group_byte(buttons, group) as u8, j) == pressed(
                buttons,
                8 * group + j,
            ),
{
    let b0: u8 = pressed_bit(buttons, 8 * group) as u8;
    let b1: u8 = pressed_bit(buttons, 8 * group + 1) as u8;
    let b2: u8 = pressed_bit(buttons, 8 * group + 2) as u8;
    let b3: u8 = pressed_bit(buttons, 8 * group + 3) as u8;
    let b4: u8 = pressed_bit(buttons, 8 * group + 4) as u8;
    let b5: u8 = pressed_bit(buttons, 8 * group + 5) as u8;
    let b6: u8 = pressed_bit(buttons, 8 * group + 6) as u8;
    let b7: u8 = pressed_bit(buttons, 8 * group + 7) as u8;
    let byte: u8 = group_byte(buttons, group) as u8;
    assert(((byte >> 0u8) & 1 == 1) == (b0 == 1) && ((byte >> 1u8) & 1 == 1) == (b1 == 1) && ((byte
        >> 2u8) & 1 == 1) == (b2 == 1) && ((byte >> 3u8) & 1 == 1) == (b3 == 1) && ((byte >> 4u8) & 1
        == 1) == (b4 == 1) && ((byte >> 5u8) & 1 == 1) == (b5 == 1) && ((byte >> 6u8) & 1 == 1) == (b6
        == 1) && ((byte >> 7u8) & 1 == 1) == (b7 == 1)) by (bit_vector)
        requires
            b0 <= 1 && b1 <= 1 && b2 <= 1 && b3 <= 1 && b4 <= 1 && b5 <= 1 && b6 <= 1 && b7 <= 1,
            byte as int == b0 + 2 * b1 + 4 * b2 + 8 * b3 + 16 * b4 + 32 * b5 + 64 * b6 + 128 * b7,
    ;
    assert forall|j: u8| j < 8 implies #[trigger] bit(byte, j) == pressed(
        buttons,
        8 * group + j,
    ) by {
    }
}

/// Reverses the order of the bits of a byte.
pub fn reverse_byte(byte: u8) -> (r: u8)
    ensures
        forall|i: u8| i < 8 ==> bit(r, i) == bit(byte, (7 - i) as u8),
{
    let a: u8 = (byte & 0xF0) >> 4 | (byte & 0x0F) << 4;
    let b: u8 = (a & 0xCC) >> 2 | (a & 0x33) << 2;
    let c: u8 = (b & 0xAA) >> 1 | (b & 0x55) << 1;
    assert(((c >> 0u8) & 1) == ((byte >> 7u8) & 1) && ((c >> 1u8) & 1) == ((byte >> 6u8) & 1)
        && ((c >> 2u8) & 1) == ((byte >> 5u8) & 1) && ((c >> 3u8) & 1) == ((byte >> 4u8) & 1)
        && ((c >> 4u8) & 1) == ((byte >> 3u8) & 1) && ((c >> 5u8) & 1) == ((byte >> 2u8) & 1)
        && ((c >> 6u8) & 1) == ((byte >> 1u8) & 1) && ((c >> 7u8) & 1) == ((byte >> 0u8) & 1))
        by (bit_vector)
        requires
            a == (byte & 0xF0) >> 4 | (byte & 0x0F) << 4,
            b == (a & 0xCC) >> 2 | (a & 0x33) << 2,
            c == (b & 0xAA) >> 1 | (b & 0x55) << 1,
    ;
    assert forall|i: u8| i < 8 implies bit(c, i) == bit(byte, (7 - i) as u8) by {
    }
    c
}

/// The character of a decimal digit.
pub open spec fn digit(d: nat) -> char {
    ((48 + d) as u8) as char
}

/// The decimal digits of a number, without leading zeros.
pub open spec fn decimal(n: nat) -> Seq<char>
    decreases n,
{
    if n < 10 {
        seq![digit(n)]
    } else {
        decimal(n / 10).push(digit(n % 10))
    }
}

/// The address of the controller of a team: `10.0.T.2` for a team number `T` of one or
/// two digits; for a longer one, `10.`, the digits before the last two, a dot, the last
/// two digits as they stand, and `.2`.
pub open spec fn team_ip(team: nat) -> Seq<char> {
    if team < 100 {
        seq!['1', '0', '.', '0', '.'] + decimal(team) + seq!['.', '2']
    } else {
        seq!['1', '0', '.'] + decimal(team / 100) + seq![
            '.',
            digit(team % 100 / 10),
            digit(team % 10),
            '.',
            '2',
        ]
    }
}

/// Appends the decimal digits of a number below one hundred.
fn push_decimal(buf: &mut Vec<u8>, n: u32)
    requires
        n < 100,
    ensures
        final(buf)@ == old(buf)@ + ascii_bytes(decimal(n as nat)),
        is_ascii_chars(decimal(n as nat)),
{
    reveal_with_fuel(decimal, 2);
    if n >= 10 {
        buf.push((48 + n / 10) as u8);
    }
    buf.push((48 + n % 10) as u8);
}

/// Converts a team number into the address of the team's controller, `10.TE.AM.2`.
pub fn ip_from_team_number(team: u32) -> (ip: String)
    requires
        team <= 9999,
    ensures
        ip@ == team_ip(team as nat),
{
    let mut buf: Vec<u8> = Vec::new();
    buf.push(49);
    buf.push(48);
    buf.push(46);
    if team < 100 {
        buf.push(48);
        buf.push(46);
        push_decimal(&mut buf, team);
    } else {
        push_decimal(&mut buf, team / 100);
        buf.push(46);
        buf.push((48 + team % 100 / 10) as u8);
        buf.push((48 + team % 10) as u8);
    }
    buf.push(46);
    buf.push(50);
    let ghost chars = team_ip(team as nat);
    assert(buf@ =~= ascii_bytes(chars));
    string_of_ascii(buf, Ghost(chars))
}

} // verus!
