use bytes::Buf;
use bytes::Bytes;
use ds::error::DecodeError;
use ds::error::DsError;
use ds::proto::udp::inbound::types::tags::DiskInfo;
use ds::proto::udp::inbound::types::tags::JoystickOutput;
use ds::proto::udp::inbound::types::tags::TagType;
use ds::proto::udp::inbound::types::Status;
use ds::proto::udp::inbound::types::Trace;
use ds::proto::udp::inbound::UdpResponsePacket;
use ds::proto::udp::inbound::Voltage;
use ds::proto::udp::DsUdpCodec;
use ds::Mode;

#[test]
fn status_decode() {
    let mut buf = Bytes::from(vec![0x00, 0x2a, 0x01, 0x04, 0x21, 0x0c, 0x80, 0x00]);
    let (packet, len) = UdpResponsePacket::decode(&mut buf).unwrap();
    assert_eq!(len, 8);
    assert_eq!(buf.remaining(), 0);
    assert_eq!(packet.seqnum, 42);
    assert_eq!(packet.status.bits(), 0x04);
    assert_eq!(packet.status.bits() & Status::ENABLED, Status::ENABLED);
    assert!(!packet.status.emergency_stopped());
    assert!(!packet.status.is_browning_out());
    assert_eq!(Mode::from_status(packet.status), Some(Mode::Teleoperated));
    assert_eq!(packet.trace.bits(), 0x21);
    assert!(packet.trace.is_code_started());
    assert!(packet.trace.is_disabled());
    assert!(!packet.trace.is_connected());
    assert!(!packet.trace.is_teleop());
    assert_eq!(packet.battery, Voltage { high: 12, low: 128 });
    assert_eq!(packet.battery.raw(), 12 * 256 + 128);
    assert_eq!(f32::from(packet.battery.high) + f32::from(packet.battery.low) / 256f32, 12.5);
    assert!(!packet.need_date);
}

#[test]
fn need_date_is_the_byte_one() {
    let mut buf = Bytes::from(vec![0, 1, 1, 0, 0, 0, 0, 1]);
    assert!(UdpResponsePacket::decode(&mut buf).unwrap().0.need_date);
    let mut buf = Bytes::from(vec![0, 1, 1, 0, 0, 0, 0, 2]);
    assert!(!UdpResponsePacket::decode(&mut buf).unwrap().0.need_date);
}

#[test]
fn known_tags_are_taken_and_dropped() {
    let mut bytes = vec![0x12, 0x34, 0x01, 0x9f, 0x3f, 0x07, 0x40, 0x01];
    bytes.push(0x04);
    bytes.extend_from_slice(&[1, 2, 3, 4]);
    bytes.push(0x01);
    bytes.extend_from_slice(&[0; 8]);
    bytes.push(0x05);
    bytes.extend_from_slice(&[0; 20]);
    bytes.push(0x06);
    bytes.extend_from_slice(&[0; 8]);
    bytes.push(0x08);
    bytes.extend_from_slice(&[0; 25]);
    bytes.push(0x09);
    bytes.extend_from_slice(&[0; 9]);
    bytes.push(0x0e);
    bytes.extend_from_slice(&[0; 14]);
    let total = bytes.len();
    assert_eq!(total, 8 + 5 + 9 + 21 + 9 + 26 + 10 + 15);
    let mut buf = Bytes::from(bytes);
    let (packet, len) = UdpResponsePacket::decode(&mut buf).unwrap();
    assert_eq!(len, total);
    assert_eq!(buf.remaining(), 0);
    assert_eq!(packet.seqnum, 0x1234);
    assert_eq!(packet.status.bits(), 0x9f);
    assert!(packet.status.emergency_stopped());
    assert!(packet.status.is_browning_out());
    assert_eq!(packet.trace.bits(), 0x3f);
    assert!(packet.need_date);
}

#[test]
fn unknown_id_ends_the_tags() {
    let mut bytes = vec![0, 1, 1, 0, 0, 0, 0, 0];
    bytes.push(0x04);
    bytes.extend_from_slice(&[1, 2, 3, 4]);
    bytes.push(0x7f);
    bytes.push(0x04);
    bytes.extend_from_slice(&[1, 2]);
    let mut buf = Bytes::from(bytes);
    let (_, len) = UdpResponsePacket::decode(&mut buf).unwrap();
    assert_eq!(len, 8 + 5 + 1);
    assert_eq!(buf.remaining(), 3);
}

#[test]
fn status_errors() {
    let mut short = Bytes::from(vec![0, 1, 1, 0, 0, 0, 0]);
    assert_eq!(UdpResponsePacket::decode(&mut short).err(), Some(DecodeError::UnexpectedEof));
    assert_eq!(short.remaining(), 7);
    let mut status = Bytes::from(vec![0, 1, 1, 0x40, 0, 0, 0, 0]);
    assert_eq!(UdpResponsePacket::decode(&mut status).err(), Some(DecodeError::Malformed));
    let mut trace = Bytes::from(vec![0, 1, 1, 0, 0x80, 0, 0, 0]);
    assert_eq!(UdpResponsePacket::decode(&mut trace).err(), Some(DecodeError::Malformed));
    let mut cut = Bytes::from(vec![0, 1, 1, 0, 0, 0, 0, 0, 0x04, 1, 2, 3]);
    assert_eq!(UdpResponsePacket::decode(&mut cut).err(), Some(DecodeError::UnexpectedEof));
    assert_eq!(cut.remaining(), 3);
}

#[test]
fn codec_never_waits_for_more() {
    let mut codec = DsUdpCodec;
    let mut buf = Bytes::from(vec![0x00, 0x2a, 0x01, 0x04, 0x21, 0x0c, 0x80, 0x00]);
    match codec.decode(&mut buf) {
        Ok(Some((packet, len))) => {
            assert_eq!(packet.seqnum, 42);
            assert_eq!(len, 8);
        }
        other => panic!("unexpected {:?}", other.map(|o| o.map(|p| p.1))),
    }
    let mut short = Bytes::from(vec![0, 1, 1]);
    assert_eq!(codec.decode(&mut short).err(), Some(DsError::Decode));
    let mut odd = Bytes::from(vec![0, 1, 1, 0x60, 0, 0, 0, 0]);
    assert_eq!(codec.decode(&mut odd).err(), Some(DsError::Decode));
}

#[test]
fn mode_is_in_the_two_lowest_bits() {
    assert_eq!(Mode::from_status(Status::from_bits(0x00).unwrap()), Some(Mode::Teleoperated));
    assert_eq!(Mode::from_status(Status::from_bits(0x01).unwrap()), Some(Mode::Test));
    assert_eq!(Mode::from_status(Status::from_bits(0x02).unwrap()), Some(Mode::Autonomous));
    assert_eq!(Mode::from_status(Status::from_bits(0x03).unwrap()), None);
    assert_eq!(Mode::from_status(Status::from_bits(0x96).unwrap()), Some(Mode::Autonomous));
}

#[test]
fn status_and_trace_flags() {
    assert!(Status::from_bits(0x10).unwrap().is_browning_out());
    assert!(!Status::from_bits(0x8f).unwrap().is_browning_out());
    assert!(Status::from_bits(0x80).unwrap().emergency_stopped());
    assert!(Status::from_bits(0x20).is_none());
    assert!(Status::from_bits(0x40).is_none());
    assert_eq!(Status::empty().bits(), 0);
    assert_eq!(Status::CODE_START, 0x08);
    assert!(Trace::from_bits(0x40).is_none());
    assert_eq!(Trace::empty().bits(), 0);
    let trace = Trace::from_bits(0x32).unwrap();
    assert!(trace.is_code_started() && trace.is_connected() && trace.is_teleop());
    assert!(!trace.is_autonomous() && !trace.is_test() && !trace.is_disabled());
    let trace = Trace::from_bits(0x0d).unwrap();
    assert!(trace.is_autonomous() && trace.is_test() && trace.is_disabled());
}

#[test]
fn inbound_tag_table() {
    let table = [
        (0x01u8, TagType::JoystickOutput, 8usize),
        (0x04, TagType::DiskInfo, 4),
        (0x05, TagType::CPUInfo, 20),
        (0x06, TagType::RAMInfo, 8),
        (0x08, TagType::PDPLog, 25),
        (0x09, TagType::Unknown, 9),
        (0x0e, TagType::CANMetrics, 14),
    ];
    for (id, tag, size) in table.iter() {
        assert_eq!(TagType::from_id(*id), Some(*tag));
        assert_eq!(tag.payload_len(), *size);
    }
    assert_eq!(TagType::from_id(0x00), None);
    assert_eq!(TagType::from_id(0x07), None);
}

#[test]
fn joystick_output_and_disk_info() {
    let mut buf = Bytes::from(vec![0x01, 0x02, 0x03, 0x04, 0xab, 0xcd, 0x00, 0x10, 0xee]);
    let out = JoystickOutput::decode(&mut buf).unwrap();
    assert_eq!(out, JoystickOutput { output: 0x0102_0304, left: 0xabcd, right: 0x0010 });
    assert_eq!(buf.remaining(), 1);
    let mut short = Bytes::from(vec![1, 2, 3, 4, 5, 6, 7]);
    assert_eq!(JoystickOutput::decode(&mut short).err(), Some(DecodeError::UnexpectedEof));
    assert_eq!(short.remaining(), 7);
    let mut buf = Bytes::from(vec![0xde, 0xad, 0xbe, 0xef]);
    assert_eq!(DiskInfo::decode(&mut buf).unwrap(), DiskInfo { free_space: 0xdead_beef });
    let mut short = Bytes::from(vec![1, 2, 3]);
    assert_eq!(DiskInfo::decode(&mut short).err(), Some(DecodeError::UnexpectedEof));
}
