//! Checked reads from a `bytes::Bytes` cursor.
//!
//! The `get_*` methods of `bytes::Buf` panic when the cursor holds too few bytes. The
//! readers of this module test `remaining` first and return `UnexpectedEof` instead, and
//! say exactly which bytes they took.
//!
//! Writes go through `byteorder::WriteBytesExt` on a `Vec<u8>`, which cannot fail.

use byteorder::BigEndian;
use byteorder::WriteBytesExt;
use bytes::Buf;
use bytes::Bytes;
use vstd::prelude::*;
use crate::error::DecodeError;

verus! {

/// `bytes::Bytes`: a cursor over a row of bytes. Nothing inside it is visible here:
/// what it holds goes by the name `unread`.
#[verifier::external_type_specification]
#[verifier::external_body]
pub struct ExBytes(bytes::Bytes);

/// The bytes that a `bytes::Bytes` still holds, the next one to be read first.
pub uninterp spec fn unread(buf: Bytes) -> Seq<u8>;

/// The value of two bytes read as a big-endian unsigned number.
pub open spec fn be_u16(bytes: Seq<u8>) -> int
    recommends
        bytes.len() >= 2,
{
    bytes[0] as int * 0x100 + bytes[1] as int
}

/// The value of four bytes read as a big-endian unsigned number.
pub open spec fn be_u32(bytes: Seq<u8>) -> int
    recommends
        bytes.len() >= 4,
{
    bytes[0] as int * 0x100_0000 + bytes[1] as int * 0x1_0000 + bytes[2] as int * 0x100
        + bytes[3] as int
}

/// The value of eight bytes read as a big-endian unsigned number.
pub open spec fn be_u64(bytes: Seq<u8>) -> int
    recommends
        bytes.len() >= 8,
{
    be_u32(bytes) * 0x1_0000_0000 + be_u32(bytes.skip(4))
}

/// The signed number that the two's complement pattern `pattern` stands for, where
/// `modulus` is two to the power of the pattern's width.
pub open spec fn signed(pattern: int, modulus: int) -> int {
    if 2 * pattern >= modulus {
        pattern - modulus
    } else {
        pattern
    }
}

/// The two's complement pattern of `value`, where `modulus` is two to the power of the
/// pattern's width.
pub open spec fn unsigned(value: int, modulus: int) -> int {
    if value < 0 {
        value + modulus
    } else {
        value
    }
}

/// The two bytes of `v`, most significant first.
pub open spec fn u16_be_bytes(v: int) -> Seq<u8> {
    seq![(v / 0x100) as u8, (v % 0x100) as u8]
}

/// The four bytes of `v`, most significant first.
pub open spec fn u32_be_bytes(v: int) -> Seq<u8> {
    seq![
        (v / 0x100_0000) as u8,
        (v / 0x1_0000 % 0x100) as u8,
        (v / 0x100 % 0x100) as u8,
        (v % 0x100) as u8,
    ]
}

/// `Buf::remaining` on `Bytes`: the number of bytes left in the cursor.
#[verifier::external_body]
pub(crate) fn remaining(buf: &Bytes) -> (n: usize)
    ensures
        n == unread(*buf).len(),
{
    buf.remaining()
}

/// `Buf::get_u8` on `Bytes`: takes the first byte. The method panics on an empty cursor.
#[verifier::external_body]
pub(crate) fn get_u8(buf: &mut Bytes) -> (v: u8)
    requires
        unread(*old(buf)).len() >= 1,
    ensures
        v == unread(*old(buf))[0],
        unread(*final(buf)) == unread(*old(buf)).skip(1),
{
    buf.get_u8()
}

/// `Buf::get_i8` on `Bytes`: takes the first byte and reads it as two's complement. The
/// method panics on an empty cursor.
#[verifier::external_body]
pub(crate) fn get_i8(buf: &mut Bytes) -> (v: i8)
    requires
        unread(*old(buf)).len() >= 1,
    ensures
        v == signed(unread(*old(buf))[0] as int, 0x100),
        unread(*final(buf)) == unread(*old(buf)).skip(1),
{
    buf.get_i8()
}

/// `Buf::get_u16` on `Bytes`: takes two bytes, most significant first. The method panics
/// when fewer are left.
#[verifier::external_body]
pub(crate) fn get_u16(buf: &mut Bytes) -> (v: u16)
    requires
        unread(*old(buf)).len() >= 2,
    ensures
        v == be_u16(unread(*old(buf))),
        unread(*final(buf)) == unread(*old(buf)).skip(2),
{
    buf.get_u16()
}

/// `Buf::get_i16` on `Bytes`: takes two bytes, most significant first, as two's
/// complement. The method panics when fewer are left.
#[verifier::external_body]
pub(crate) fn get_i16(buf: &mut Bytes) -> (v: i16)
    requires
        unread(*old(buf)).len() >= 2,
    ensures
        v == signed(be_u16(unread(*old(buf))), 0x1_0000),
        unread(*final(buf)) == unread(*old(buf)).skip(2),
{
    buf.get_i16()
}

/// `Buf::get_u32` on `Bytes`: takes four bytes, most significant first. The method panics
/// when fewer are left.
#[verifier::external_body]
pub(crate) fn get_u32(buf: &mut Bytes) -> (v: u32)
    requires
        unread(*old(buf)).len() >= 4,
    ensures
        v == be_u32(unread(*old(buf))),
        unread(*final(buf)) == unread(*old(buf)).skip(4),
{
    buf.get_u32()
}

/// `Buf::get_i32` on `Bytes`: takes four bytes, most significant first, as two's
/// complement. The method panics when fewer are left.
#[verifier::external_body]
pub(crate) fn get_i32(buf: &mut Bytes) -> (v: i32)
    requires
        unread(*old(buf)).len() >= 4,
    ensures
        v == signed(be_u32(unread(*old(buf))), 0x1_0000_0000),
        unread(*final(buf)) == unread(*old(buf)).skip(4),
{
    buf.get_i32()
}

/// `Buf::get_u64` on `Bytes`: takes eight bytes, most significant first. The method
/// panics when fewer are left.
#[verifier::external_body]
pub(crate) fn get_u64(buf: &mut Bytes) -> (v: u64)
    requires
        unread(*old(buf)).len() >= 8,
    ensures
        v == be_u64(unread(*old(buf))),
        unread(*final(buf)) == unread(*old(buf)).skip(8),
{
    buf.get_u64()
}

/// `Buf::get_i64` on `Bytes`: takes eight bytes, most significant first, as two's
/// complement. The method panics when fewer are left.
#[verifier::external_body]
pub(crate) fn get_i64(buf: &mut Bytes) -> (v: i64)
    requires
        unread(*old(buf)).len() >= 8,
    ensures
        v == signed(be_u64(unread(*old(buf))), 0x1_0000_0000_0000_0000),
        unread(*final(buf)) == unread(*old(buf)).skip(8),
{
    buf.get_i64()
}

/// What a checked read of `width` bytes leaves in the cursor: nothing is taken unless all
/// `width` bytes are there.
pub open spec fn after_read(before: Seq<u8>, width: nat) -> Seq<u8> {
    if before.len() >= width {
        before.skip(width as int)
    } else {
        before
    }
}

/// Checked reads of numbers from a cursor. A read takes its bytes if they are all there,
/// and nothing otherwise.
pub trait BufExt {
    /// The bytes that the cursor still holds, the next one to be read first.
    spec fn pending(&self) -> Seq<u8>;

    /// Reads an unsigned byte.
    fn read_u8(&mut self) -> (r: Result<u8, DecodeError>)
        ensures
            final(self).pending() == after_read(old(self).pending(), 1),
            old(self).pending().len() >= 1 ==> r == Ok::<u8, DecodeError>(old(self).pending()[0]),
            old(self).pending().len() < 1 ==> r == Err::<u8, DecodeError>(DecodeError::UnexpectedEof),
    ;

    /// Reads an unsigned big-endian short.
    fn read_u16_be(&mut self) -> (r: Result<u16, DecodeError>)
        ensures
            final(self).pending() == after_read(old(self).pending(), 2),
            old(self).pending().len() >= 2 ==> (r matches Ok(v) && v == be_u16(old(self).pending())),
            old(self).pending().len() < 2 ==> r == Err::<u16, DecodeError>(DecodeError::UnexpectedEof),
    ;

    /// Reads an unsigned big-endian integer.
    fn read_u32_be(&mut self) -> (r: Result<u32, DecodeError>)
        ensures
            final(self).pending() == after_read(old(self).pending(), 4),
            old(self).pending().len() >= 4 ==> (r matches Ok(v) && v == be_u32(old(self).pending())),
            old(self).pending().len() < 4 ==> r == Err::<u32, DecodeError>(DecodeError::UnexpectedEof),
    ;

    /// Reads an unsigned big-endian long.
    fn read_u64_be(&mut self) -> (r: Result<u64, DecodeError>)
        ensures
            final(self).pending() == after_read(old(self).pending(), 8),
            old(self).pending().len() >= 8 ==> (r matches Ok(v) && v == be_u64(old(self).pending())),
            old(self).pending().len() < 8 ==> r == Err::<u64, DecodeError>(DecodeError::UnexpectedEof),
    ;

    /// Reads a signed byte.
    fn read_i8(&mut self) -> (r: Result<i8, DecodeError>)
        ensures
            final(self).pending() == after_read(old(self).pending(), 1),
            old(self).pending().len() >= 1 ==> (r matches Ok(v) && v == signed(
                old(self).pending()[0] as int,
                0x100,
            )),
            old(self).pending().len() < 1 ==> r == Err::<i8, DecodeError>(DecodeError::UnexpectedEof),
    ;

    /// Reads a signed big-endian short.
    fn read_i16_be(&mut self) -> (r: Result<i16, DecodeError>)
        ensures
            final(self).pending() == after_read(old(self).pending(), 2),
            old(self).pending().len() >= 2 ==> (r matches Ok(v) && v == signed(
                be_u16(old(self).pending()),
                0x1_0000,
            )),
            old(self).pending().len() < 2 ==> r == Err::<i16, DecodeError>(DecodeError::UnexpectedEof),
    ;

    /// Reads a signed big-endian integer.
    fn read_i32_be(&mut self) -> (r: Result<i32, DecodeError>)
        ensures
            final(self).pending() == after_read(old(self).pending(), 4),
            old(self).pending().len() >= 4 ==> (r matches Ok(v) && v == signed(
                be_u32(old(self).pending()),
                0x1_0000_0000,
            )),
            old(self).pending().len() < 4 ==> r == Err::<i32, DecodeError>(DecodeError::UnexpectedEof),
    ;

    /// Reads a signed big-endian long.
    fn read_i64_be(&mut self) -> (r: Result<i64, DecodeError>)
        ensures
            final(self).pending() == after_read(old(self).pending(), 8),
            old(self).pending().len() >= 8 ==> (r matches Ok(v) && v == signed(
                be_u64(old(self).pending()),
                0x1_0000_0000_0000_0000,
            )),
            old(self).pending().len() < 8 ==> r == Err::<i64, DecodeError>(DecodeError::UnexpectedEof),
    ;

    /// Reads the bit pattern of a big-endian single-precision number.
    fn read_f32_be(&mut self) -> (r: Result<u32, DecodeError>)
        ensures
            final(self).pending() == after_read(old(self).pending(), 4),
            old(self).pending().len() >= 4 ==> (r matches Ok(v) && v == be_u32(old(self).pending())),
            old(self).pending().len() < 4 ==> r == Err::<u32, DecodeError>(DecodeError::UnexpectedEof),
    ;

    /// Reads the bit pattern of a big-endian double-precision number.
    fn read_f64_be(&mut self) -> (r: Result<u64, DecodeError>)
        ensures
            final(self).pending() == after_read(old(self).pending(), 8),
            old(self).pending().len() >= 8 ==> (r matches Ok(v) && v == be_u64(old(self).pending())),
            old(self).pending().len() < 8 ==> r == Err::<u64, DecodeError>(DecodeError::UnexpectedEof),
    ;
}

impl BufExt for Bytes {
    open spec fn pending(&self) -> Seq<u8> {
        unread(*self)
    }

    fn read_u8(&mut self) -> (r: Result<u8, DecodeError>) {
        if remaining(self) >= 1 {
            Ok(get_u8(self))
        } else {
            Err(DecodeError::UnexpectedEof)
        }
    }

    fn read_u16_be(&mut self) -> (r: Result<u16, DecodeError>) {
        if remaining(self) >= 2 {
            Ok(get_u16(self))
        } else {
            Err(DecodeError::UnexpectedEof)
        }
    }

    fn read_u32_be(&mut self) -> (r: Result<u32, DecodeError>) {
        if remaining(self) >= 4 {
            Ok(get_u32(self))
        } else {
            Err(DecodeError::UnexpectedEof)
        }
    }

    fn read_u64_be(&mut self) -> (r: Result<u64, DecodeError>) {
        if remaining(self) >= 8 {
            Ok(get_u64(self))
        } else {
            Err(DecodeError::UnexpectedEof)
        }
    }

    fn read_i8(&mut self) -> (r: Result<i8, DecodeError>) {
        if remaining(self) >= 1 {
            Ok(get_i8(self))
        } else {
            Err(DecodeError::UnexpectedEof)
        }
    }

    fn read_i16_be(&mut self) -> (r: Result<i16, DecodeError>) {
        if remaining(self) >= 2 {
            Ok(get_i16(self))
        } else {
            Err(DecodeError::UnexpectedEof)
        }
    }

    fn read_i32_be(&mut self) -> (r: Result<i32, DecodeError>) {
        if remaining(self) >= 4 {
            Ok(get_i32(self))
        } else {
            Err(DecodeError::UnexpectedEof)
        }
    }

    fn read_i64_be(&mut self) -> (r: Result<i64, DecodeError>) {
        if remaining(self) >= 8 {
            Ok(get_i64(self))
        } else {
            Err(DecodeError::UnexpectedEof)
        }
    }

    fn read_f32_be(&mut self) -> (r: Result<u32, DecodeError>) {
        self.read_u32_be()
    }

    fn read_f64_be(&mut self) -> (r: Result<u64, DecodeError>) {
        self.read_u64_be()
    }
}

/// Drops `count` bytes, if that many are left, and nothing otherwise.
pub fn skip(buf: &mut Bytes, count: usize) -> (r: Result<(), DecodeError>)
    ensures
        unread(*final(buf)) == after_read(unread(*old(buf)), count as nat),
        unread(*old(buf)).len() >= count ==> r == Ok::<(), DecodeError>(()),
        unread(*old(buf)).len() < count ==> r == Err::<(), DecodeError>(
            DecodeError::UnexpectedEof,
        ),
{
    if remaining(buf) < count {
        return Err(DecodeError::UnexpectedEof);
    }
    let mut i: usize = 0;
    while i < count
        invariant
            i <= count <= unread(*old(buf)).len(),
            unread(*buf) == unread(*old(buf)).skip(i as int),
        decreases count - i,
    {
        let _ = get_u8(buf);
        i = i + 1;
    }
    Ok(())
}

/// `Buf::copy_to_slice` on `Bytes`, into a new vector: takes the first `count` bytes.
/// The method panics when fewer are left.
#[verifier::external_body]
pub(crate) fn copy_to_vec(buf: &mut Bytes, count: usize) -> (v: Vec<u8>)
    requires
        unread(*old(buf)).len() >= count,
    ensures
        v@ == unread(*old(buf)).take(count as int),
        unread(*final(buf)) == unread(*old(buf)).skip(count as int),
{
    let mut v = vec![0; count];
    buf.copy_to_slice(&mut v[..]);
    v
}

/// `WriteBytesExt::write_u8` on a `Vec<u8>`: appends the byte.
#[verifier::external_body]
pub(crate) fn write_u8(buf: &mut Vec<u8>, n: u8)
    ensures
        final(buf)@ == old(buf)@.push(n),
{
    buf.write_u8(n).unwrap();
}

/// `WriteBytesExt::write_i8` on a `Vec<u8>`: appends the two's complement byte of `n`.
#[verifier::external_body]
pub(crate) fn write_i8(buf: &mut Vec<u8>, n: i8)
    ensures
        final(buf)@ == old(buf)@.push(unsigned(n as int, 0x100) as u8),
{
    buf.write_i8(n).unwrap();
}

/// `WriteBytesExt::write_u16::<BigEndian>` on a `Vec<u8>`: appends the two bytes of `n`,
/// most significant first.
#[verifier::external_body]
pub(crate) fn write_u16_be(buf: &mut Vec<u8>, n: u16)
    ensures
        final(buf)@ == old(buf)@ + u16_be_bytes(n as int),
{
    buf.write_u16::<BigEndian>(n).unwrap();
}

/// `WriteBytesExt::write_i16::<BigEndian>` on a `Vec<u8>`: appends the two bytes of the
/// two's complement pattern of `n`, most significant first.
#[verifier::external_body]
pub(crate) fn write_i16_be(buf: &mut Vec<u8>, n: i16)
    ensures
        final(buf)@ == old(buf)@ + u16_be_bytes(unsigned(n as int, 0x1_0000)),
{
    buf.write_i16::<BigEndian>(n).unwrap();
}

/// `WriteBytesExt::write_u32::<BigEndian>` on a `Vec<u8>`: appends the four bytes of `n`,
/// most significant first.
#[verifier::external_body]
pub(crate) fn write_u32_be(buf: &mut Vec<u8>, n: u32)
    ensures
        final(buf)@ == old(buf)@ + u32_be_bytes(n as int),
{
    buf.write_u32::<BigEndian>(n).unwrap();
}

/// Appends a copy of `src`.
pub fn extend(buf: &mut Vec<u8>, src: &[u8])
    ensures
        final(buf)@ == old(buf)@ + src@,
{
    let mut i: usize = 0;
    while i < src.len()
        invariant
            i <= src@.len(),
            buf@ == old(buf)@ + src@.take(i as int),
        decreases src@.len() - i,
    {
        buf.push(src[i]);
        i = i + 1;
    }
}

/// Reading back what was written gives the number that was written.
pub proof fn lemma_be_u16_of_bytes(v: int)
    requires
        0 <= v < 0x1_0000,
    ensures
        u16_be_bytes(v).len() == 2,
        be_u16(u16_be_bytes(v)) == v,
{
}

/// Reading back what was written gives the number that was written.
pub proof fn lemma_be_u32_of_bytes(v: u32)
    ensures
        u32_be_bytes(v as int).len() == 4,
        be_u32(u32_be_bytes(v as int)) == v,
{
    assert(v / 0x100_0000 < 0x100 && (v / 0x100_0000) * 0x100_0000 + (v / 0x1_0000 % 0x100)
        * 0x1_0000 + (v / 0x100 % 0x100) * 0x100 + v % 0x100 == v) by (bit_vector);
}

} // verus!
