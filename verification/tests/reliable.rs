use bytes::Buf;
use bytes::Bytes;
use ds::ds::state::recv::TcpState;
use ds::error::DecodeError;
use ds::error::DsError;
use ds::proto::tcp::outbound::AxisType;
use ds::proto::tcp::outbound::GameData;
use ds::proto::tcp::outbound::JoystickType;
use ds::proto::tcp::outbound::MatchInfo;
use ds::proto::tcp::outbound::MatchType;
use ds::proto::tcp::outbound::OutgoingTcpTag;
use ds::proto::tcp::outbound::TcpTag;
use ds::proto::tcp::DsTcpCodec;
use ds::proto::tcp::MalformedFrame;
use ds::Stdout;
use ds::TcpPacket;

fn stdout_frame(text: &[u8]) -> Vec<u8> {
    let len = (text.len() + 7) as u16;
    let mut frame = vec![(len >> 8) as u8, len as u8, 0x0c];
    frame.extend_from_slice(&1.5f32.to_be_bytes());
    frame.extend_from_slice(&[0x01, 0x02]);
    frame.extend_from_slice(text);
    frame
}

#[test]
fn stdout_frame_decodes() {
    let frame = stdout_frame(b"hi!");
    assert_eq!(frame.len(), 12);
    let mut buf = Bytes::from(frame);
    let mut codec = DsTcpCodec;
    match codec.decode(&mut buf) {
        Ok(Some((TcpPacket::Stdout(line), consumed))) => {
            assert_eq!(consumed, 12);
            assert_eq!(f32::from_bits(line.timestamp), 1.5);
            assert_eq!(line.seqnum, 0x0102);
            assert_eq!(line.message, "hi!");
        }
        other => panic!("unexpected {:?}", other),
    }
    assert_eq!(buf.remaining(), 0);
}

#[test]
fn only_the_first_frame_is_taken() {
    let mut bytes = stdout_frame("héllo".as_bytes());
    let first = bytes.len();
    bytes.extend_from_slice(&[0x00, 0x02, 0x99, 0x01]);
    let mut buf = Bytes::from(bytes);
    let mut codec = DsTcpCodec;
    match codec.decode(&mut buf) {
        Ok(Some((TcpPacket::Stdout(line), consumed))) => {
            assert_eq!(consumed, first);
            assert_eq!(line.message, "héllo");
        }
        other => panic!("unexpected {:?}", other),
    }
    assert_eq!(buf.remaining(), 4);
    match codec.decode(&mut buf) {
        Ok(Some((TcpPacket::Dummy, consumed))) => assert_eq!(consumed, 4),
        other => panic!("unexpected {:?}", other),
    }
    assert_eq!(buf.remaining(), 0);
}

#[test]
fn unknown_id_gives_the_dummy() {
    let mut buf = Bytes::from(vec![0x00, 0x03, 0x01, 0x09, 0x09, 0xff]);
    let mut codec = DsTcpCodec;
    match codec.decode(&mut buf) {
        Ok(Some((TcpPacket::Dummy, consumed))) => assert_eq!(consumed, 5),
        other => panic!("unexpected {:?}", other),
    }
    assert_eq!(buf.remaining(), 1);
}

#[test]
fn a_frame_that_is_not_all_there_waits() {
    let mut codec = DsTcpCodec;
    let mut one = Bytes::from(vec![0x00]);
    assert!(matches!(codec.decode(&mut one), Ok(None)));
    assert_eq!(one.remaining(), 1);
    let mut head = Bytes::from(vec![0x00, 0x05, 0x0c]);
    assert!(matches!(codec.decode(&mut head), Ok(None)));
    let frame = stdout_frame(b"robot");
    let mut cut = Bytes::from(frame[..frame.len() - 1].to_vec());
    assert!(matches!(codec.decode(&mut cut), Ok(None)));
    let mut none = Bytes::new();
    assert!(matches!(codec.decode(&mut none), Ok(None)));
}

#[test]
fn malformed_frames_say_how_much_to_drop() {
    let mut codec = DsTcpCodec;
    let mut empty = Bytes::from(vec![0x00, 0x00, 0x00, 0x03]);
    assert_eq!(codec.decode(&mut empty).err(), Some(MalformedFrame { consumed: 2 }));
    assert_eq!(empty.remaining(), 2);
    let mut text = Bytes::from(stdout_frame(&[0xff, 0xfe]));
    assert_eq!(codec.decode(&mut text).err(), Some(MalformedFrame { consumed: 11 }));
    assert_eq!(text.remaining(), 0);
    let mut short = Bytes::from(vec![0x00, 0x03, 0x0c, 0x01, 0x02, 0x77]);
    assert_eq!(codec.decode(&mut short).err(), Some(MalformedFrame { consumed: 5 }));
    assert_eq!(short.remaining(), 1);
}

#[test]
fn stdout_decode_takes_len_bytes() {
    let mut payload = Vec::new();
    payload.extend_from_slice(&2.0f32.to_be_bytes());
    payload.extend_from_slice(&[0xab, 0xcd]);
    payload.extend_from_slice(b"ok");
    payload.push(0x55);
    let mut buf = Bytes::from(payload);
    let line = Stdout::decode(&mut buf, 8).unwrap();
    assert_eq!(line.timestamp, 0x4000_0000);
    assert_eq!(line.seqnum, 0xabcd);
    assert_eq!(line.message, "ok");
    assert_eq!(buf.remaining(), 1);
    let mut buf = Bytes::from(vec![0, 0, 0, 0, 0, 0]);
    let line = Stdout::decode(&mut buf, 6).unwrap();
    assert_eq!(line.message, "");
}

#[test]
fn stdout_decode_errors() {
    let mut buf = Bytes::from(vec![0; 7]);
    assert_eq!(Stdout::decode(&mut buf, 8).err(), Some(DecodeError::UnexpectedEof));
    assert_eq!(buf.remaining(), 7);
    let mut buf = Bytes::from(vec![0; 7]);
    assert_eq!(Stdout::decode(&mut buf, 5).err(), Some(DecodeError::Malformed));
    assert_eq!(buf.remaining(), 2);
    let mut buf = Bytes::from(vec![0, 0, 0, 0, 0, 0, 0xc0]);
    assert_eq!(Stdout::decode(&mut buf, 7).err(), Some(DecodeError::Malformed));
    assert_eq!(buf.remaining(), 0);
}

#[test]
fn game_data_frame() {
    let tag = GameData { gsm: "ABC".to_string() };
    assert_eq!(tag.id(), 0x0e);
    assert_eq!(tag.data(), b"ABC".to_vec());
    assert_eq!(tag.construct(), vec![0x00, 0x04, 0x0e, b'A', b'B', b'C']);
}

#[test]
fn match_info_frame() {
    let tag = MatchInfo { competition: "abc".to_string(), match_type: MatchType::Practice };
    assert_eq!(tag.id(), 0x07);
    assert_eq!(tag.data(), vec![3, b'a', b'b', b'c', 1]);
    assert_eq!(tag.construct(), vec![0x00, 0x06, 0x07, 3, b'a', b'b', b'c', 1]);
    assert_eq!(MatchType::NoMatch.bits(), 0);
    assert_eq!(MatchType::Qualifications.bits(), 2);
    assert_eq!(MatchType::Eliminations.bits(), 3);
}

#[test]
fn long_data_have_a_two_byte_length() {
    let tag = GameData { gsm: "x".repeat(0x1234) };
    let frame = tag.construct();
    assert_eq!(&frame[..3], &[0x12, 0x35, 0x0e]);
    assert_eq!(frame.len(), 0x1234 + 3);
}

#[test]
fn codec_encodes_either_tag() {
    let mut codec = DsTcpCodec;
    let mut out = Vec::new();
    codec.encode(TcpTag::GameData(GameData { gsm: "LRL".to_string() }), &mut out);
    codec.encode(
        TcpTag::MatchInfo(MatchInfo { competition: "".to_string(), match_type: MatchType::NoMatch }),
        &mut out,
    );
    assert_eq!(out, vec![0x00, 0x04, 0x0e, b'L', b'R', b'L', 0x00, 0x03, 0x07, 0, 0]);
}

#[test]
fn game_specific_message_reaches_the_stream_once() {
    let mut state = TcpState::new();
    state.set_tcp_tx(true);
    assert_eq!(state.set_game_specific_message("ABC"), Ok(()));
    let mut pending = state.take_pending();
    assert_eq!(pending.len(), 1);
    let mut codec = DsTcpCodec;
    let mut out = Vec::new();
    codec.encode(pending.remove(0), &mut out);
    assert_eq!(out, vec![0x00, 0x04, 0x0e, b'A', b'B', b'C']);
    assert!(state.take_pending().is_empty());
}

#[test]
fn game_specific_message_errors() {
    let mut state = TcpState::new();
    assert_eq!(state.set_game_specific_message("ABC"), Err(DsError::ReliableChannelUnavailable));
    assert_eq!(state.set_game_specific_message("AB"), Err(DsError::InvalidArgument));
    state.set_tcp_tx(true);
    assert_eq!(state.set_game_specific_message("ABCD"), Err(DsError::InvalidArgument));
    assert_eq!(state.set_game_specific_message(""), Err(DsError::InvalidArgument));
    assert_eq!(state.set_game_specific_message("éB"), Ok(()));
    assert_eq!(state.take_pending().len(), 1);
    state.set_tcp_tx(false);
    assert_eq!(state.set_game_specific_message("ABC"), Err(DsError::ReliableChannelUnavailable));
}

#[test]
fn queue_keeps_the_order() {
    let mut state = TcpState::new();
    let tag = TcpTag::GameData(GameData { gsm: "one".to_string() });
    assert_eq!(state.queue_tcp(tag), Err(DsError::ReliableChannelUnavailable));
    assert!(state.take_pending().is_empty());
    state.set_tcp_tx(true);
    assert!(state.queue_tcp(TcpTag::GameData(GameData { gsm: "one".to_string() })).is_ok());
    assert!(state.queue_tcp(TcpTag::GameData(GameData { gsm: "two".to_string() })).is_ok());
    let pending = state.take_pending();
    let names: Vec<String> = pending
        .iter()
        .map(|t| match t {
            TcpTag::GameData(g) => g.gsm.clone(),
            TcpTag::MatchInfo(m) => m.competition.clone(),
        })
        .collect();
    assert_eq!(names, vec!["one".to_string(), "two".to_string()]);
}

#[test]
fn inbound_packets_go_to_the_consumer_if_there_is_one() {
    let mut state = TcpState::new();
    assert!(state.deliver(TcpPacket::Dummy).is_none());
    state.set_tcp_consumer();
    assert!(matches!(state.deliver(TcpPacket::Dummy), Some(TcpPacket::Dummy)));
}

#[test]
fn device_codes() {
    assert_eq!(AxisType::XAxis.bits(), 0);
    assert_eq!(AxisType::ThrottleAxis.bits(), 4);
    assert_eq!(JoystickType::Unknown.bits(), -1);
    assert_eq!(JoystickType::XinputDrumKit.bits(), 8);
    assert_eq!(JoystickType::XinputGuitar3.bits(), 11);
    assert_eq!(JoystickType::XinputAracadePad.bits(), 19);
    assert_eq!(JoystickType::HID1stPerson.bits(), 24);
}
