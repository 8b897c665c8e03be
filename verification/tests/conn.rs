use bytes::Bytes;
use ds::ds::conn::backoff::ExponentialBackoff;
use ds::ds::conn::date_tag;
use ds::ds::conn::date_tag_now;
use ds::ds::conn::simulator_host;
use ds::ds::conn::usb_host;
use ds::ds::conn::ClockReading;
use ds::ds::conn::ReceiveTask;
use ds::ds::conn::SendTask;
use ds::ds::conn::SimProbe;
use ds::ds::conn::CONTROL_PORT;
use ds::ds::conn::MAX_BACKOFF_MS;
use ds::ds::conn::PROBE_PORT;
use ds::ds::conn::PROBE_TIMEOUT_MS;
use ds::ds::conn::READ_TIMEOUT_MS;
use ds::ds::conn::RELIABLE_PORT;
use ds::ds::conn::STATUS_PORT;
use ds::ds::conn::TICK_MS;
use ds::ds::state::recv::RecvState;
use ds::ds::state::send::SendState;
use ds::ds::state::DsMode;
use ds::ds::Signal;
use ds::error::DsError;
use ds::proto::udp::inbound::UdpResponsePacket;
use ds::proto::udp::inbound::Voltage;
use ds::proto::udp::outbound::types::tags::DateTime;
use ds::proto::udp::outbound::types::tags::UdpTag;
use ds::proto::udp::outbound::UdpControlPacket;
use ds::Alliance;
use ds::DriverStation;

fn status(bytes: [u8; 8]) -> UdpResponsePacket {
    let mut buf = Bytes::from(bytes.to_vec());
    UdpResponsePacket::decode(&mut buf).unwrap().0
}

fn noon() -> ClockReading {
    ClockReading {
        micros: 123_456,
        second: 7,
        minute: 30,
        hour: 12,
        day: 28,
        month0: 9,
        year: 2026,
    }
}

#[test]
fn constants_of_the_session() {
    assert_eq!(CONTROL_PORT, 1110);
    assert_eq!(STATUS_PORT, 1150);
    assert_eq!(RELIABLE_PORT, 1740);
    assert_eq!(PROBE_PORT, 1135);
    assert_eq!(TICK_MS, 20);
    assert_eq!(READ_TIMEOUT_MS, 2000);
    assert_eq!(PROBE_TIMEOUT_MS, 250);
    assert_eq!(MAX_BACKOFF_MS, 5000);
    assert_eq!(simulator_host(), "127.0.0.1");
    assert_eq!(usb_host(), "172.22.11.2");
}

#[test]
fn date_tag_of_a_moment() {
    assert_eq!(date_tag(&noon()), DateTime::new(123_456, 7, 30, 12, 28, 9, 126));
    let mut early = noon();
    early.year = 1899;
    assert_eq!(date_tag(&early).year, 255);
    early.year = 1900;
    assert_eq!(date_tag(&early).year, 0);
    early.year = 2156;
    assert_eq!(date_tag(&early).year, 0);
    early.year = 1644;
    assert_eq!(date_tag(&early).year, 0);
    early.year = -1;
    assert_eq!(date_tag(&early).year, ((-1901i32) as u8));
    early.second = 300;
    assert_eq!(date_tag(&early).second, 44);
}

#[test]
fn date_tag_of_the_present() {
    let tag = date_tag_now();
    assert!(tag.micros < 2_000_000);
    assert!(tag.second < 60);
    assert!(tag.minute < 60);
    assert!(tag.hour < 24);
    assert!(1 <= tag.day && tag.day <= 31);
    assert!(tag.month < 12);
    assert!(tag.year >= 120);
}

#[test]
fn need_date_handshake() {
    let mut send = SendState::new(Alliance::new_red(1));
    let mut recv = RecvState::new();
    let mut task = ReceiveTask::new("10.40.69.2".to_string());
    let packet = status([0x00, 0x2a, 0x01, 0x00, 0x30, 0x0c, 0x80, 0x01]);
    assert!(packet.need_date);
    let open = task.on_packet_at(&mut send, &mut recv, &packet, &noon());
    assert_eq!(open, Some("10.40.69.2".to_string()));
    let sender = SendTask::new();
    let bytes = sender.tick(&mut send, vec![]);
    assert_eq!(
        bytes,
        vec![0, 0, 1, 2, 0, 0, 11, 0x0f, 0x00, 0x01, 0xe2, 0x40, 7, 30, 12, 28, 9, 126]
    );
    let again = sender.tick(&mut send, vec![]);
    assert_eq!(again, vec![0, 0, 1, 2, 0, 0]);
}

#[test]
fn need_date_handshake_with_the_clock() {
    let mut send = SendState::new(Alliance::new_red(1));
    let mut recv = RecvState::new();
    let mut task = ReceiveTask::new("10.40.69.2".to_string());
    let packet = status([0x00, 0x2a, 0x01, 0x00, 0x30, 0x0c, 0x80, 0x01]);
    task.on_packet(&mut send, &mut recv, &packet);
    let datagram = send.control(vec![]);
    assert_eq!(datagram.tags.len(), 1);
    match &datagram.tags[0] {
        UdpTag::DateTime(d) => {
            assert!(d.second < 60 && d.minute < 60 && d.hour < 24);
            assert!(d.month < 12 && d.day >= 1 && d.day <= 31 && d.year >= 120);
        }
        other => panic!("unexpected {:?}", other),
    }
    let bytes = datagram.encode();
    assert_eq!(bytes.len(), 18);
    assert_eq!(&bytes[6..8], &[11, 0x0f]);
    let plain = status([0x00, 0x2b, 0x01, 0x00, 0x30, 0x0c, 0x80, 0x00]);
    task.on_packet(&mut send, &mut recv, &plain);
    assert!(send.pending_udp().is_empty());
}

#[test]
fn a_status_datagram_fills_the_receive_state() {
    let mut send = SendState::new(Alliance::new_red(1));
    let mut recv = RecvState::new();
    let mut task = ReceiveTask::new("10.0.1.2".to_string());
    let packet = status([0x00, 0x2a, 0x01, 0x04, 0x21, 0x0c, 0x80, 0x00]);
    let open = task.on_packet_at(&mut send, &mut recv, &packet, &noon());
    assert_eq!(open, Some("10.0.1.2".to_string()));
    assert_eq!(recv.battery_voltage(), Voltage { high: 12, low: 128 });
    assert_eq!(recv.trace().bits(), 0x21);
    assert!(send.pending_udp().is_empty());
    let again = task.on_packet_at(&mut send, &mut recv, &packet, &noon());
    assert_eq!(again, None);
}

#[test]
fn readings_stay_while_datagrams_go_out() {
    let mut send = SendState::new(Alliance::new_red(1));
    let mut recv = RecvState::new();
    let mut receiver = ReceiveTask::new("10.0.1.2".to_string());
    let mut sender = SendTask::new();
    let packet = status([0x00, 0x2a, 0x01, 0x04, 0x21, 0x0c, 0x80, 0x00]);
    receiver.on_packet_at(&mut send, &mut recv, &packet, &noon());
    for _ in 0..100 {
        let _ = sender.tick(&mut send, vec![]);
        sender.sent(&mut send);
        assert_eq!(recv.battery_voltage(), Voltage { high: 12, low: 128 });
        assert_eq!(recv.trace().bits(), 0x21);
    }
}

#[test]
fn the_simulator_gets_the_reliable_stream_in_simulation_mode() {
    let mut send = SendState::new(Alliance::new_red(1));
    send.set_ds_mode(DsMode::Simulation);
    let mut recv = RecvState::new();
    let mut task = ReceiveTask::new("10.0.1.2".to_string());
    let packet = status([0, 1, 1, 0, 0x20, 0, 0, 0]);
    let open = task.on_packet_at(&mut send, &mut recv, &packet, &noon());
    assert_eq!(open, Some("127.0.0.1".to_string()));
}

#[test]
fn a_status_with_the_stop_flag_latches() {
    let mut send = SendState::new(Alliance::new_red(1));
    send.enable();
    let mut recv = RecvState::new();
    let mut task = ReceiveTask::new("10.0.1.2".to_string());
    let packet = status([0, 1, 1, 0x84, 0x20, 0, 0, 0]);
    task.on_packet_at(&mut send, &mut recv, &packet, &noon());
    assert!(send.estopped());
    assert!(!send.enabled());
}

#[test]
fn silence_before_the_first_datagram_is_no_loss() {
    let mut recv = RecvState::new();
    let mut task = ReceiveTask::new("10.0.1.2".to_string());
    recv.set_battery_voltage(Voltage { high: 1, low: 1 });
    assert!(!task.on_timeout(&mut recv));
    assert_eq!(recv.battery_voltage(), Voltage { high: 1, low: 1 });
}

#[test]
fn silence_clears_the_receive_state_once() {
    let mut send = SendState::new(Alliance::new_red(1));
    let mut recv = RecvState::new();
    let mut task = ReceiveTask::new("10.0.1.2".to_string());
    let packet = status([0x00, 0x2a, 0x01, 0x04, 0x21, 0x0c, 0x80, 0x00]);
    task.on_packet_at(&mut send, &mut recv, &packet, &noon());
    assert!(task.on_timeout(&mut recv));
    assert_eq!(recv.battery_voltage(), Voltage { high: 0, low: 0 });
    assert_eq!(recv.trace().bits(), 0);
    recv.set_battery_voltage(Voltage { high: 1, low: 1 });
    assert!(!task.on_timeout(&mut recv));
    assert_eq!(recv.battery_voltage(), Voltage { high: 1, low: 1 });
    task.on_packet_at(&mut send, &mut recv, &packet, &noon());
    assert!(task.on_timeout(&mut recv));
}

#[test]
fn reconnect_clears_seqnum() {
    let mut station = DriverStation::new_team(4069).unwrap().0;
    let mut send = SendState::new(Alliance::new_red(1));
    let mut recv = RecvState::new();
    let mut receiver = ReceiveTask::new("10.40.69.2".to_string());
    let mut sender = SendTask::new();
    send.enable();
    for _ in 0..10 {
        let _ = sender.tick(&mut send, vec![]);
        sender.sent(&mut send);
    }
    assert_eq!(send.seqnum(), 10);
    assert_eq!(&sender.tick(&mut send, vec![])[..2], &[0x00, 0x0a]);
    let signal = station.set_team_number(1234).unwrap();
    assert_eq!(station.team_number(), 1234);
    let reaction = receiver.on_signal(&mut send, signal);
    assert!(!reaction.exit);
    assert_eq!(reaction.forward.len(), 1);
    let endpoint = sender.on_signal(&mut send, &mut recv, &reaction.forward[0]).unwrap();
    assert_eq!(endpoint.host, "10.12.34.2");
    assert_eq!(endpoint.port, 1110);
    assert_eq!(send.seqnum(), 0);
    assert!(!send.enabled());
    let next = sender.tick(&mut send, vec![]);
    assert_eq!(&next[..2], &[0x00, 0x00]);
    assert_eq!(UdpControlPacket::decode(Bytes::from(next)).unwrap().seqnum, 0);
}

#[test]
fn receiver_reacts_to_signals() {
    let mut send = SendState::new(Alliance::new_red(1));
    let mut recv = RecvState::new();
    let mut task = ReceiveTask::new("10.0.1.2".to_string());
    let quit = task.on_signal(&mut send, Signal::Disconnect);
    assert!(quit.exit && !quit.stop_reliable && quit.forward.is_empty());
    let fresh = task.on_signal(&mut send, Signal::NewTarget("10.0.2.2".to_string()));
    assert!(!fresh.exit && !fresh.stop_reliable);
    assert!(matches!(&fresh.forward[..], [Signal::NewTarget(t)] if t == "10.0.2.2"));
    let packet = status([0, 1, 1, 0, 0x20, 0, 0, 0]);
    assert_eq!(
        task.on_packet_at(&mut send, &mut recv, &packet, &noon()),
        Some("10.0.2.2".to_string())
    );
    let same = task.on_signal(&mut send, Signal::NewMode(DsMode::Normal));
    assert!(!same.exit && !same.stop_reliable && same.forward.is_empty());
    let sim = task.on_signal(&mut send, Signal::NewMode(DsMode::Simulation));
    assert!(sim.stop_reliable);
    assert!(matches!(&sim.forward[..], [Signal::NewMode(DsMode::Simulation)]));
    assert_eq!(*send.ds_mode(), DsMode::Simulation);
    assert_eq!(
        task.on_packet_at(&mut send, &mut recv, &packet, &noon()),
        Some("127.0.0.1".to_string())
    );
    let back = task.on_signal(&mut send, Signal::NewMode(DsMode::Normal));
    assert!(back.stop_reliable);
    assert!(matches!(
        &back.forward[..],
        [Signal::NewTarget(t), Signal::NewMode(DsMode::Normal)] if t == "10.0.2.2"
    ));
    assert_eq!(*send.ds_mode(), DsMode::Normal);
    let moved = task.on_signal(&mut send, Signal::NewTarget("10.0.3.2".to_string()));
    assert!(moved.stop_reliable);
    assert_eq!(
        task.on_packet_at(&mut send, &mut recv, &packet, &noon()),
        Some("10.0.3.2".to_string())
    );
}

#[test]
fn sender_reacts_to_signals() {
    let mut send = SendState::new(Alliance::new_red(1));
    let mut recv = RecvState::new();
    let mut task = SendTask::new();
    send.enable();
    send.increment_seqnum();
    recv.set_battery_voltage(Voltage { high: 12, low: 0 });
    assert!(task.on_signal(&mut send, &mut recv, &Signal::Disconnect).is_none());
    assert!(task.on_signal(&mut send, &mut recv, &Signal::NewMode(DsMode::Normal)).is_none());
    assert_eq!(send.seqnum(), 1);
    assert!(send.enabled());
    assert_eq!(recv.battery_voltage().high, 12);
    let sim = task.on_signal(&mut send, &mut recv, &Signal::NewMode(DsMode::Simulation)).unwrap();
    assert_eq!((sim.host.as_str(), sim.port), ("127.0.0.1", 1110));
    assert_eq!(send.seqnum(), 0);
    assert!(!send.enabled());
    assert_eq!(recv.battery_voltage().high, 0);
}

#[test]
fn first_refusal_is_reported_once() {
    let mut send = SendState::new(Alliance::new_red(1));
    let mut recv = RecvState::new();
    let mut task = SendTask::new();
    assert_eq!(task.wait(), None);
    recv.set_battery_voltage(Voltage { high: 12, low: 0 });
    assert_eq!(task.refused_with(&mut recv, false, 500), Some(DsError::TransportUnavailable));
    assert_eq!(recv.battery_voltage().high, 12);
    assert_eq!(task.wait(), Some(1500));
    assert_eq!(task.refused_with(&mut recv, true, 1), None);
    assert_eq!(recv.battery_voltage().high, 12);
    assert_eq!(task.wait(), Some(2001));
    let _ = task.tick(&mut send, vec![]);
    task.sent(&mut send);
    assert_eq!(send.seqnum(), 1);
    assert_eq!(task.wait(), None);
    assert_eq!(task.refused_with(&mut recv, true, 999), Some(DsError::TransportUnavailable));
    assert_eq!(recv.battery_voltage().high, 0);
    assert_eq!(task.wait(), Some(1999));
}

#[test]
fn refused_datagrams_keep_the_sequence_number() {
    let mut send = SendState::new(Alliance::new_red(1));
    let mut recv = RecvState::new();
    let mut task = SendTask::new();
    let _ = task.tick(&mut send, vec![]);
    task.sent(&mut send);
    for _ in 0..5 {
        let bytes = task.tick(&mut send, vec![]);
        assert_eq!(&bytes[..2], &[0x00, 0x01]);
        let _ = task.refused(&mut recv, false);
    }
    let wait = task.wait().unwrap();
    assert_eq!(wait, 5000);
    let bytes = task.tick(&mut send, vec![]);
    task.sent(&mut send);
    assert_eq!(&bytes[..2], &[0x00, 0x01]);
    assert_eq!(&task.tick(&mut send, vec![])[..2], &[0x00, 0x02]);
}

#[test]
fn random_part_is_below_a_second() {
    for _ in 0..200 {
        let mut backoff = ExponentialBackoff::new(60_000);
        assert!(backoff.failed());
        let first = backoff.timeout().unwrap();
        assert!(1001 <= first && first <= 1999);
        assert!(!backoff.failed());
        let second = backoff.timeout().unwrap();
        assert!(2001 <= second && second <= 2999);
    }
}

#[test]
fn backoff_doubles_up_to_the_maximum() {
    let mut backoff = ExponentialBackoff::new(5000);
    assert_eq!(backoff.timeout(), None);
    assert!(backoff.failed_with(500));
    assert_eq!(backoff.timeout(), Some(1500));
    assert!(!backoff.failed_with(1));
    assert_eq!(backoff.timeout(), Some(2001));
    assert!(!backoff.failed_with(999));
    assert_eq!(backoff.timeout(), Some(4999));
    assert!(!backoff.failed_with(1));
    assert_eq!(backoff.timeout(), Some(5000));
    assert!(!backoff.failed_with(1));
    assert_eq!(backoff.timeout(), Some(5000));
    backoff.reset();
    assert_eq!(backoff.timeout(), None);
    assert!(backoff.failed_with(250));
    assert_eq!(backoff.timeout(), Some(1250));
}

#[test]
fn backoff_stays_at_the_maximum_once_reached() {
    let mut backoff = ExponentialBackoff::new(1500);
    assert!(backoff.failed_with(500));
    assert_eq!(backoff.timeout(), Some(1500));
    backoff.calculate_wait(1);
    assert_eq!(backoff.timeout(), Some(1500));
    let mut wide = ExponentialBackoff::new(u64::MAX);
    for attempt in 0..300u32 {
        assert_eq!(wide.failed_with(7), attempt == 0);
        let wait = wide.timeout().unwrap();
        if attempt < 55 {
            assert_eq!(wait, (1u64 << attempt) * 1000 + 7);
        } else {
            assert_eq!(wait, u64::MAX);
        }
    }
}

#[test]
fn probe_signals_changes_only() {
    let mut probe = SimProbe::new();
    assert!(probe.on_read(false).is_none());
    assert!(matches!(probe.on_read(true), Some(Signal::NewMode(DsMode::Simulation))));
    assert!(probe.on_read(true).is_none());
    assert!(matches!(probe.on_read(false), Some(Signal::NewMode(DsMode::Normal))));
    assert!(probe.on_read(false).is_none());
}
