use bytes::Buf;
use bytes::Bytes;
use ds::error::DecodeError;
use ds::ext::extend;
use ds::ext::BufExt;
use ds::ext::skip;

fn cursor() -> Bytes {
    Bytes::from(vec![0xff, 0x02, 0x03, 0x04, 0x05, 0x06, 0x07, 0x08, 0x09])
}

#[test]
fn unsigned_reads() {
    let mut buf = cursor();
    assert_eq!(buf.read_u8(), Ok(0xff));
    assert_eq!(buf.remaining(), 8);
    let mut buf = cursor();
    assert_eq!(buf.read_u16_be(), Ok(0xff02));
    assert_eq!(buf.remaining(), 7);
    let mut buf = cursor();
    assert_eq!(buf.read_u32_be(), Ok(0xff02_0304));
    assert_eq!(buf.remaining(), 5);
    let mut buf = cursor();
    assert_eq!(buf.read_u64_be(), Ok(0xff02_0304_0506_0708));
    assert_eq!(buf.remaining(), 1);
    assert_eq!(buf.read_u8(), Ok(0x09));
}

#[test]
fn signed_reads() {
    let mut buf = cursor();
    assert_eq!(buf.read_i8(), Ok(-1));
    assert_eq!(buf.read_i8(), Ok(2));
    let mut buf = cursor();
    assert_eq!(buf.read_i16_be(), Ok(-254));
    let mut buf = cursor();
    assert_eq!(buf.read_i32_be(), Ok(0xff02_0304u32 as i32));
    let mut buf = cursor();
    assert_eq!(buf.read_i64_be(), Ok(0xff02_0304_0506_0708u64 as i64));
    let mut buf = Bytes::from(vec![0x7f, 0xff, 0x80, 0x00]);
    assert_eq!(buf.read_i16_be(), Ok(i16::MAX));
    assert_eq!(buf.read_i16_be(), Ok(i16::MIN));
}

#[test]
fn float_reads_give_the_bits() {
    let mut buf = Bytes::from(1.2f32.to_be_bytes().to_vec());
    assert_eq!(buf.read_f32_be().map(f32::from_bits), Ok(1.2f32));
    let mut buf = Bytes::from((-2.5f64).to_be_bytes().to_vec());
    assert_eq!(buf.read_f64_be().map(f64::from_bits), Ok(-2.5f64));
}

#[test]
fn short_reads_take_nothing() {
    let mut buf = Bytes::from(vec![1, 2, 3]);
    assert_eq!(buf.read_u32_be(), Err(DecodeError::UnexpectedEof));
    assert_eq!(buf.read_i32_be(), Err(DecodeError::UnexpectedEof));
    assert_eq!(buf.read_f32_be(), Err(DecodeError::UnexpectedEof));
    assert_eq!(buf.read_u64_be(), Err(DecodeError::UnexpectedEof));
    assert_eq!(buf.read_i64_be(), Err(DecodeError::UnexpectedEof));
    assert_eq!(buf.read_f64_be(), Err(DecodeError::UnexpectedEof));
    assert_eq!(buf.remaining(), 3);
    assert_eq!(buf.read_u16_be(), Ok(0x0102));
    assert_eq!(buf.read_u16_be(), Err(DecodeError::UnexpectedEof));
    assert_eq!(buf.read_i16_be(), Err(DecodeError::UnexpectedEof));
    assert_eq!(buf.read_u8(), Ok(3));
    assert_eq!(buf.read_u8(), Err(DecodeError::UnexpectedEof));
    assert_eq!(buf.read_i8(), Err(DecodeError::UnexpectedEof));
}

#[test]
fn skip_drops_all_or_nothing() {
    let mut buf = cursor();
    assert_eq!(skip(&mut buf, 4), Ok(()));
    assert_eq!(buf.read_u8(), Ok(0x05));
    assert_eq!(skip(&mut buf, 5), Err(DecodeError::UnexpectedEof));
    assert_eq!(buf.remaining(), 4);
    assert_eq!(skip(&mut buf, 0), Ok(()));
    assert_eq!(skip(&mut buf, 4), Ok(()));
    assert_eq!(buf.remaining(), 0);
}

#[test]
fn extend_appends() {
    let mut buf = vec![1, 2];
    extend(&mut buf, &[3, 4, 5]);
    extend(&mut buf, &[]);
    assert_eq!(buf, vec![1, 2, 3, 4, 5]);
}
