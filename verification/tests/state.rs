use ds::ds::state::recv::RecvState;
use ds::ds::state::send::SendState;
use ds::ds::state::DsMode;
use ds::proto::udp::inbound::types::Status;
use ds::proto::udp::inbound::types::Trace;
use ds::proto::udp::inbound::Voltage;
use ds::proto::udp::outbound::types::tags::Countdown;
use ds::proto::udp::outbound::types::tags::Timezone;
use ds::proto::udp::outbound::types::tags::UdpTag;
use ds::Alliance;
use ds::Control;
use ds::JoystickValue;
use ds::Mode;
use ds::Request;

fn control_byte(state: &mut SendState) -> u8 {
    state.control(vec![]).control.bits()
}

#[test]
fn new_send_state() {
    let mut state = SendState::new(Alliance::new_blue(1));
    assert_eq!(*state.mode(), Mode::Autonomous);
    assert_eq!(state.seqnum(), 0);
    assert!(!state.enabled());
    assert!(!state.estopped());
    assert_eq!(state.alliance(), Alliance(3));
    assert_eq!(*state.ds_mode(), DsMode::Normal);
    assert!(state.pending_udp().is_empty());
    assert_eq!(state.control(vec![]).encode(), vec![0x00, 0x00, 0x01, 0x02, 0x00, 0x03]);
}

#[test]
fn auto_enabled_red_two_from_the_state() {
    let mut state = SendState::new(Alliance::new_red(2));
    state.set_mode(Mode::Autonomous);
    state.enable();
    state.increment_seqnum();
    assert_eq!(state.control(vec![]).encode(), vec![0x00, 0x01, 0x01, 0x06, 0x00, 0x01]);
}

#[test]
fn teleop_disabled_red_one_from_the_state() {
    let mut state = SendState::new(Alliance::new_red(1));
    state.set_mode(Mode::Teleoperated);
    state.increment_seqnum();
    assert_eq!(state.control(vec![]).encode(), vec![0x00, 0x01, 0x01, 0x00, 0x00, 0x00]);
}

#[test]
fn control_byte_of_each_mode_and_flag() {
    let mut state = SendState::new(Alliance::new_red(1));
    state.set_mode(Mode::Test);
    assert_eq!(control_byte(&mut state), 0x01);
    state.enable();
    assert_eq!(control_byte(&mut state), 0x05);
    state.set_mode(Mode::Teleoperated);
    assert_eq!(control_byte(&mut state), 0x04);
    state.estop();
    assert_eq!(control_byte(&mut state), 0x80);
    state.set_mode(Mode::Autonomous);
    assert_eq!(control_byte(&mut state), 0x82);
}

#[test]
fn enabling_twice_is_enabling_once() {
    let mut once = SendState::new(Alliance::new_red(1));
    once.enable();
    let mut twice = SendState::new(Alliance::new_red(1));
    twice.enable();
    twice.enable();
    assert!(once.enabled() && twice.enabled());
    assert_eq!(control_byte(&mut once), control_byte(&mut twice));
    once.disable();
    twice.disable();
    twice.disable();
    assert!(!once.enabled() && !twice.enabled());
    assert_eq!(control_byte(&mut once), control_byte(&mut twice));
}

#[test]
fn estop_latches_until_the_code_restarts() {
    let running = Trace::from_bits(Trace::ROBOT_CODE | Trace::IS_ROBORIO).unwrap();
    let restarted = Trace::from_bits(Trace::IS_ROBORIO).unwrap();
    let calm = Status::from_bits(Status::ENABLED).unwrap();
    let stopped = Status::from_bits(Status::ESTOP).unwrap();
    let mut state = SendState::new(Alliance::new_red(1));
    state.enable();
    state.estop();
    assert!(state.estopped() && !state.enabled());
    let byte = control_byte(&mut state);
    assert_eq!(byte & Control::ESTOP, Control::ESTOP);
    assert_eq!(byte & Control::ENABLED, 0);
    state.enable();
    assert!(!state.enabled());
    state.observe(calm, running);
    state.enable();
    assert!(state.estopped() && !state.enabled());
    assert_eq!(control_byte(&mut state) & 0x84, 0x80);
    state.observe(stopped, restarted);
    assert!(state.estopped());
    state.observe(calm, restarted);
    assert!(!state.estopped() && !state.enabled());
    state.enable();
    assert!(state.enabled());
    assert_eq!(control_byte(&mut state) & 0x84, 0x04);
}

#[test]
fn a_status_with_the_stop_flag_stops() {
    let mut state = SendState::new(Alliance::new_red(1));
    state.enable();
    let trace = Trace::from_bits(Trace::ROBOT_CODE).unwrap();
    state.observe(Status::from_bits(Status::ESTOP | Status::ENABLED).unwrap(), trace);
    assert!(state.estopped());
    assert!(!state.enabled());
}

#[test]
fn sequence_numbers_count_up_and_wrap() {
    let mut state = SendState::new(Alliance::new_red(1));
    let mut last = state.control(vec![]).seqnum;
    for _ in 0..70_000u32 {
        state.increment_seqnum();
        state.enable();
        let next = state.control(vec![]).seqnum;
        assert_eq!(next, last.wrapping_add(1));
        last = next;
    }
    state.reset_seqnum();
    assert_eq!(state.seqnum(), 0);
}

#[test]
fn queue_and_request_go_into_one_datagram() {
    let mut state = SendState::new(Alliance::new_red(1));
    state.queue_udp(UdpTag::Countdown(Countdown::new(2.0f32.to_bits())));
    state.queue_udp(UdpTag::Timezone(Timezone::new("UTC")));
    state.request(Request::RebootRoborio);
    state.request(Request::RestartCode);
    assert_eq!(state.pending_udp().len(), 2);
    let first = state.control(vec![]);
    assert_eq!(first.request, Some(Request::RestartCode));
    assert_eq!(
        first.encode(),
        vec![0, 0, 1, 2, 4, 0, 5, 7, 0x40, 0, 0, 0, 4, 0x10, b'U', b'T', b'C']
    );
    assert!(state.pending_udp().is_empty());
    let second = state.control(vec![]);
    assert_eq!(second.request, None);
    assert!(second.tags.is_empty());
    assert_eq!(second.encode(), vec![0, 0, 1, 2, 0, 0]);
}

#[test]
fn one_joystick_tag_for_each_group() {
    let mut state = SendState::new(Alliance::new_red(1));
    state.queue_udp(UdpTag::Timezone(Timezone::new("UTC")));
    let groups = vec![
        vec![
            JoystickValue::Axis { id: 0, value: 127 },
            JoystickValue::Button { id: 1, pressed: true },
            JoystickValue::POV { id: 0, angle: 90 },
        ],
        vec![],
    ];
    let packet = state.control(groups);
    assert_eq!(packet.tags.len(), 3);
    assert!(matches!(packet.tags[0], UdpTag::Timezone(_)));
    match &packet.tags[1] {
        UdpTag::Joysticks(j) => {
            assert_eq!(j.axes, vec![127, 0, 0, 0, 0, 0]);
            let mut buttons = vec![false; 10];
            buttons[0] = true;
            assert_eq!(j.buttons, buttons);
            assert_eq!(j.povs, vec![90]);
        }
        other => panic!("unexpected {:?}", other),
    }
    match &packet.tags[2] {
        UdpTag::Joysticks(j) => {
            assert_eq!(j.axes, vec![0; 6]);
            assert_eq!(j.buttons, vec![false; 10]);
            assert_eq!(j.povs, vec![-1]);
        }
        other => panic!("unexpected {:?}", other),
    }
    let bytes = packet.encode();
    assert_eq!(
        &bytes[11..],
        &[
            14, 0x0c, 6, 0x7f, 0, 0, 0, 0, 0, 10, 0x00, 0x01, 1, 0x00, 0x5a, 14, 0x0c, 6, 0, 0, 0,
            0, 0, 0, 10, 0x00, 0x00, 1, 0xff, 0xff
        ]
    );
}

#[test]
fn last_value_wins_and_strange_ids_are_ignored() {
    let mut state = SendState::new(Alliance::new_red(1));
    let group = vec![
        JoystickValue::Axis { id: 5, value: -128 },
        JoystickValue::Axis { id: 6, value: 1 },
        JoystickValue::Axis { id: 5, value: 64 },
        JoystickValue::Button { id: 0, pressed: true },
        JoystickValue::Button { id: 10, pressed: true },
        JoystickValue::Button { id: 11, pressed: true },
        JoystickValue::Button { id: 3, pressed: true },
        JoystickValue::Button { id: 3, pressed: false },
        JoystickValue::POV { id: 1, angle: 45 },
        JoystickValue::POV { id: 0, angle: 180 },
        JoystickValue::POV { id: 0, angle: 270 },
    ];
    let packet = state.control(vec![group]);
    match &packet.tags[0] {
        UdpTag::Joysticks(j) => {
            assert_eq!(j.axes, vec![0, 0, 0, 0, 0, 64]);
            let mut buttons = vec![false; 10];
            buttons[9] = true;
            assert_eq!(j.buttons, buttons);
            assert_eq!(j.povs, vec![270]);
        }
        other => panic!("unexpected {:?}", other),
    }
}

#[test]
fn joystick_value_kinds() {
    let axis = JoystickValue::Axis { id: 2, value: -5 };
    let button = JoystickValue::Button { id: 7, pressed: true };
    let pov = JoystickValue::POV { id: 0, angle: 45 };
    assert_eq!((axis.id(), button.id(), pov.id()), (2, 7, 0));
    assert!(axis.is_axis() && !axis.is_button() && !axis.is_pov());
    assert!(button.is_button() && !button.is_axis() && !button.is_pov());
    assert!(pov.is_pov() && !pov.is_axis() && !pov.is_button());
}

#[test]
fn setters_of_the_send_state() {
    let mut state = SendState::new(Alliance::new_red(1));
    state.set_alliance(Alliance::new_blue(3));
    assert_eq!(state.alliance().0, 5);
    state.set_ds_mode(DsMode::Simulation);
    assert_eq!(*state.ds_mode(), DsMode::Simulation);
    state.set_mode(Mode::Test);
    assert_eq!(*state.mode(), Mode::Test);
    assert_eq!(state.control(vec![]).encode(), vec![0, 0, 1, 1, 0, 5]);
}

#[test]
fn receive_state_keeps_and_forgets() {
    let mut state = RecvState::new();
    assert_eq!(state.battery_voltage(), Voltage { high: 0, low: 0 });
    assert_eq!(state.trace().bits(), 0);
    state.set_battery_voltage(Voltage { high: 12, low: 128 });
    state.set_trace(Trace::from_bits(0x31).unwrap());
    assert_eq!(state.battery_voltage().raw(), 3200);
    assert_eq!(state.trace().bits(), 0x31);
    state.reset();
    assert_eq!(state.battery_voltage(), Voltage { high: 0, low: 0 });
    assert_eq!(state.trace().bits(), 0);
}
