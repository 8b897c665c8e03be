//! The decisions of the connection tasks.
//!
//! Four tasks keep a session going: one receives status datagrams, one sends a control
//! datagram every 20 ms, one runs the reliable stream, and one listens for a simulator.
//! Each task owns its sockets and timers. What a task does on an event is decided
//! here, on the state that the task keeps and on the substates that it shares with
//! the caller.

use chrono::Datelike;
use chrono::Timelike;
use chrono::Utc;
use vstd::prelude::*;
use crate::ds::state::recv::RecvState;
use crate::ds::state::recv::RecvStateView;
use crate::ds::state::send::SendState;
use crate::ds::state::send::SendStateView;
use crate::ds::state::DsMode;
use crate::ds::JoystickValue;
use crate::ds::Signal;
use crate::ds::SignalView;
use crate::error::DsError;
use crate::proto::udp::inbound::UdpResponsePacket;
use crate::proto::udp::inbound::UdpResponsePacketView;
use crate::proto::udp::outbound::types::tags::DateTime;
use crate::proto::udp::outbound::types::tags::UdpTag;
use crate::proto::udp::outbound::types::tags::UdpTagView;
use self::backoff::BackoffView;
use self::backoff::ExponentialBackoff;

pub mod backoff;

verus! {

/// The port of the controller that takes control datagrams.
pub const CONTROL_PORT: u16 = 1110;

/// The local port on which status datagrams arrive.
pub const STATUS_PORT: u16 = 1150;

/// The port of the controller that takes the reliable stream.
pub const RELIABLE_PORT: u16 = 1740;

/// The local port on which a simulator announces itself.
pub const PROBE_PORT: u16 = 1135;

/// The milliseconds between two control datagrams.
pub const TICK_MS: u64 = 20;

/// The milliseconds of silence after which the controller counts as gone.
pub const READ_TIMEOUT_MS: u64 = 2000;

/// The milliseconds of silence after which a simulator counts as gone.
pub const PROBE_TIMEOUT_MS: u64 = 250;

/// The longest wait, in milliseconds, between two attempts to send.
pub const MAX_BACKOFF_MS: u64 = 5000;

/// The address of a simulator on the local machine.
pub fn simulator_host() -> (r: String)
    ensures
        r@ == "127.0.0.1"@,
{
    "127.0.0.1".to_owned()
}

/// The address of a controller that is attached by USB.
pub fn usb_host() -> (r: String)
    ensures
        r@ == "172.22.11.2"@,
{
    "172.22.11.2".to_owned()
}

/// The fields of a moment in UTC.
#[derive(Clone, Copy, Debug, PartialEq, Eq, Structural)]
pub struct ClockReading {
    /// Microseconds since the last full second.
    pub micros: u32,
    pub second: u32,
    pub minute: u32,
    pub hour: u32,
    /// The day of the month, counted from one.
    pub day: u32,
    /// The month, counted from zero.
    pub month0: u32,
    pub year: i32,
}

/// `chrono::Utc::now` with the fields that `Timelike` and `Datelike` read from it: the
/// present moment in UTC. The claim is that of their documentation: seconds and minutes
/// from 0 to 59, the hour from 0 to 23, the day from 1 to 31, the month from 0 to 11.
/// During a leap second the microseconds go beyond 999,999, and never reach two million.
/// Nothing is claimed of which moment it is. `now` panics where the system clock stands
/// before 1970.
#[verifier::external_body]
fn utc_now() -> (now: ClockReading)
    ensures
        now.micros < 2_000_000,
        now.second < 60,
        now.minute < 60,
        now.hour < 24,
        1 <= now.day <= 31,
        now.month0 < 12,
{
    let now = Utc::now();
    ClockReading {
        micros: now.timestamp_subsec_micros(),
        second: now.second(),
        minute: now.minute(),
        hour: now.hour(),
        day: now.day(),
        month0: now.month0(),
        year: now.year(),
    }
}

/// The date tag for a moment. The tag has one byte for each field and counts the years
/// from 1900: of a larger number only the lowest eight bits are sent.
pub open spec fn date_of(now: ClockReading) -> DateTime {
    DateTime {
        micros: now.micros,
        second: (now.second % 0x100) as u8,
        minute: (now.minute % 0x100) as u8,
        hour: (now.hour % 0x100) as u8,
        day: (now.day % 0x100) as u8,
        month: (now.month0 % 0x100) as u8,
        year: ((now.year - 1900) % 0x100) as u8,
    }
}

/// The date tag for a moment.
pub fn date_tag(now: &ClockReading) -> (r: DateTime)
    ensures
        r == date_of(*now),
{
    let since: i64 = now.year as i64 - 1900;
    let year: u8 = if since >= 0 {
        (since % 0x100) as u8
    } else {
        let below: i64 = (-since) % 0x100;
        if below == 0 {
            0
        } else {
            (0x100 - below) as u8
        }
    };
    DateTime::new(
        now.micros,
        (now.second % 0x100) as u8,
        (now.minute % 0x100) as u8,
        (now.hour % 0x100) as u8,
        (now.day % 0x100) as u8,
        (now.month0 % 0x100) as u8,
        year,
    )
}

/// The date tag for the present moment. Its fields are in range: seconds and minutes
/// below 60, the hour below 24, the day from 1 to 31, the month below 12.
pub fn date_tag_now() -> (r: DateTime)
    ensures
        r.micros < 2_000_000,
        r.second < 60,
        r.minute < 60,
        r.hour < 24,
        1 <= r.day <= 31,
        r.month < 12,
{
    let now: ClockReading = utc_now();
    date_tag(&now)
}

/// What a status datagram does to the send substate: the date tag is queued if the
/// controller asks for the date, and the latch of the emergency stop follows the
/// status and trace bytes.
pub open spec fn send_after_status(
    send: SendStateView,
    packet: UdpResponsePacketView,
    date: DateTime,
) -> SendStateView {
    let queued = if packet.need_date {
        SendStateView { pending_udp: send.pending_udp.push(UdpTagView::DateTime(date)), ..send }
    } else {
        send
    };
    queued.observe(packet.status, packet.trace)
}

/// What a status datagram leaves in the receive substate: its voltage and its trace.
pub open spec fn recv_after_status(packet: UdpResponsePacketView) -> RecvStateView {
    RecvStateView { battery_voltage: packet.battery, trace: packet.trace }
}

/// The substates that the datagram tasks share, as one plain value.
pub struct SessionView {
    pub send: SendStateView,
    pub recv: RecvStateView,
    pub backoff: BackoffView,
}

impl SessionView {
    /// The session after a status datagram that arrived at the moment of `date`.
    pub open spec fn status(self, packet: UdpResponsePacketView, date: DateTime) -> SessionView {
        SessionView {
            send: send_after_status(self.send, packet, date),
            recv: recv_after_status(packet),
            ..self
        }
    }

    /// The session after a control datagram that the transport took.
    pub open spec fn transmit(self) -> SessionView {
        SessionView {
            send: self.send.drained().increment_seqnum(),
            backoff: self.backoff.reset(),
            ..self
        }
    }

    /// The session after `count` control datagrams that the transport took.
    pub open spec fn transmits(self, count: nat) -> SessionView
        decreases count,
    {
        if count == 0 {
            self
        } else {
            self.transmits((count - 1) as nat).transmit()
        }
    }
}

/// Stable readings: after a status datagram, however many control datagrams go out,
/// the voltage and the trace stay those of the status datagram.
pub proof fn lemma_readings_stable(
    session: SessionView,
    packet: UdpResponsePacketView,
    date: DateTime,
    count: nat,
)
    ensures
        session.status(packet, date).transmits(count).recv == recv_after_status(packet),
        session.status(packet, date).transmits(count).recv.battery_voltage == packet.battery,
        session.status(packet, date).transmits(count).recv.trace == packet.trace,
    decreases count,
{
    if count > 0 {
        lemma_readings_stable(session, packet, date, (count - 1) as nat);
    }
}

/// The task that receives status datagrams, as a plain value.
pub struct ReceiveTaskView {
    /// Whether a reliable stream is running.
    pub tcp_connected: bool,
    /// Whether a reliable stream was ever started, so that there is one to stop.
    pub tcp_tx: bool,
    /// Whether the controller has been heard since the last silence.
    pub connected: bool,
    /// The address of the team's controller.
    pub target_ip: Seq<char>,
}

/// What the receiving task is to do after a signal.
pub struct Reaction {
    /// The task ends.
    pub exit: bool,
    /// The reliable stream is told to disconnect.
    pub stop_reliable: bool,
    /// The signals to hand on to the sending task, in this order.
    pub forward: Vec<Signal>,
}

/// What the receiving task is to do after a signal, as a plain value.
pub struct ReactionView {
    pub exit: bool,
    pub stop_reliable: bool,
    pub forward: Seq<SignalView>,
}

impl View for Reaction {
    type V = ReactionView;

    open spec fn view(&self) -> ReactionView {
        ReactionView {
            exit: self.exit,
            stop_reliable: self.stop_reliable,
            forward: self.forward@.map_values(|s: Signal| s@),
        }
    }
}

impl ReceiveTaskView {
    /// The task of a new session: the controller has not been heard, and no reliable
    /// stream runs.
    pub open spec fn initial(target_ip: Seq<char>) -> ReceiveTaskView {
        ReceiveTaskView { tcp_connected: false, tcp_tx: false, connected: false, target_ip }
    }

    /// After a status datagram the controller is heard and a reliable stream runs: the
    /// one that ran before, or one that is started now.
    pub open spec fn after_status(self) -> ReceiveTaskView {
        ReceiveTaskView {
            tcp_connected: true,
            tcp_tx: self.tcp_tx || !self.tcp_connected,
            connected: true,
            ..self
        }
    }

    /// Where a reliable stream is to be opened on a status datagram: nowhere if one is
    /// running; else at the team's controller in normal mode and at the simulator in
    /// simulation mode.
    pub open spec fn reliable_host(self, mode: DsMode) -> Option<Seq<char>> {
        if self.tcp_connected {
            None
        } else if mode == DsMode::Normal {
            Some(self.target_ip)
        } else {
            Some("127.0.0.1"@)
        }
    }

    /// The task after a signal, given the operating mode before it.
    pub open spec fn after_signal(self, mode: DsMode, signal: SignalView) -> ReceiveTaskView {
        match signal {
            SignalView::Disconnect => self,
            SignalView::NewTarget(target) => ReceiveTaskView {
                tcp_connected: self.tcp_connected && !self.tcp_tx,
                target_ip: target,
                ..self
            },
            SignalView::NewMode(next) => if next != mode {
                ReceiveTaskView { tcp_connected: self.tcp_connected && !self.tcp_tx, ..self }
            } else {
                self
            },
        }
    }

    /// What the task does on a signal, given the operating mode before it. On
    /// `Disconnect` it ends. On a new target it stops the reliable stream and hands
    /// the signal on. On a change of mode it stops the reliable stream and hands the
    /// signal on, preceded by the team's target when the mode becomes normal. A mode
    /// that is the present one changes nothing.
    pub open spec fn reaction(self, mode: DsMode, signal: SignalView) -> ReactionView {
        match signal {
            SignalView::Disconnect => ReactionView {
                exit: true,
                stop_reliable: false,
                forward: Seq::empty(),
            },
            SignalView::NewTarget(target) => ReactionView {
                exit: false,
                stop_reliable: self.tcp_tx,
                forward: seq![signal],
            },
            SignalView::NewMode(next) => if next == mode {
                ReactionView { exit: false, stop_reliable: false, forward: Seq::empty() }
            } else if next == DsMode::Normal {
                ReactionView {
                    exit: false,
                    stop_reliable: self.tcp_tx,
                    forward: seq![SignalView::NewTarget(self.target_ip), signal],
                }
            } else {
                ReactionView { exit: false, stop_reliable: self.tcp_tx, forward: seq![signal] }
            },
        }
    }
}

/// The operating mode after a signal.
pub open spec fn mode_after_signal(mode: DsMode, signal: SignalView) -> DsMode {
    match signal {
        SignalView::NewMode(next) => next,
        _ => mode,
    }
}

/// What the task that receives status datagrams keeps between events.
pub struct ReceiveTask {
    tcp_connected: bool,
    tcp_tx: bool,
    connected: bool,
    target_ip: String,
}

impl View for ReceiveTask {
    type V = ReceiveTaskView;

    closed spec fn view(&self) -> ReceiveTaskView {
        ReceiveTaskView {
            tcp_connected: self.tcp_connected,
            tcp_tx: self.tcp_tx,
            connected: self.connected,
            target_ip: self.target_ip@,
        }
    }
}

impl ReceiveTask {
    /// The task of a session with the controller at `target_ip`.
    pub fn new(target_ip: String) -> (r: ReceiveTask)
        ensures
            r@ == ReceiveTaskView::initial(target_ip@),
    {
        ReceiveTask { tcp_connected: false, tcp_tx: false, connected: false, target_ip }
    }

    /// Takes a status datagram that arrived at the moment `now`, and returns the
    /// address at which a reliable stream is to be opened, if none is running.
    pub fn on_packet_at(
        &mut self,
        send: &mut SendState,
        recv: &mut RecvState,
        packet: &UdpResponsePacket,
        now: &ClockReading,
    ) -> (open: Option<String>)
        ensures
            final(self)@ == old(self)@.after_status(),
            final(send)@ == send_after_status(old(send)@, packet@, date_of(*now)),
            final(recv)@ == recv_after_status(packet@),
            match old(self)@.reliable_host(old(send)@.ds_mode) {
                Some(host) => open matches Some(h) && h@ == host,
                None => open is None,
            },
    {
        self.connected = true;
        if packet.need_date {
            send.queue_udp(UdpTag::DateTime(date_tag(now)));
        }
        let open: Option<String> = if !self.tcp_connected {
            self.tcp_tx = true;
            self.tcp_connected = true;
            match *send.ds_mode() {
                DsMode::Normal => Some(self.target_ip.clone()),
                DsMode::Simulation => Some(simulator_host()),
            }
        } else {
            None
        };
        send.observe(packet.status, packet.trace);
        recv.set_trace(packet.trace);
        recv.set_battery_voltage(packet.battery);
        open
    }

    /// Takes a status datagram that arrives now, and returns the address at which a
    /// reliable stream is to be opened, if none is running. If the controller asks for
    /// the date, the tag of the present moment is queued.
    pub fn on_packet(
        &mut self,
        send: &mut SendState,
        recv: &mut RecvState,
        packet: &UdpResponsePacket,
    ) -> (open: Option<String>)
        ensures
            final(self)@ == old(self)@.after_status(),
            exists|now: ClockReading|
                final(send)@ == send_after_status(old(send)@, packet@, date_of(now)),
            !packet.need_date ==> final(send)@ == old(send)@.observe(packet@.status, packet@.trace),
            final(recv)@ == recv_after_status(packet@),
            match old(self)@.reliable_host(old(send)@.ds_mode) {
                Some(host) => open matches Some(h) && h@ == host,
                None => open is None,
            },
    {
        let now: ClockReading = utc_now();
        self.on_packet_at(send, recv, packet, &now)
    }

    /// Takes note that no status datagram came for two seconds. After the first such
    /// silence since a datagram the receive substate is cleared, and `true` returned.
    pub fn on_timeout(&mut self, recv: &mut RecvState) -> (lost: bool)
        ensures
            lost == old(self)@.connected,
            final(self)@ == (ReceiveTaskView { connected: false, ..old(self)@ }),
            final(recv)@ == if lost {
                RecvStateView::cleared()
            } else {
                old(recv)@
            },
    {
        if self.connected {
            recv.reset();
            self.connected = false;
            true
        } else {
            false
        }
    }

    /// Takes a signal and says what the task is to do.
    pub fn on_signal(&mut self, send: &mut SendState, signal: Signal) -> (r: Reaction)
        ensures
            final(self)@ == old(self)@.after_signal(old(send)@.ds_mode, signal@),
            final(send)@ == (SendStateView {
                ds_mode: mode_after_signal(old(send)@.ds_mode, signal@),
                ..old(send)@
            }),
            r@ == old(self)@.reaction(old(send)@.ds_mode, signal@),
    {
        let mut forward: Vec<Signal> = Vec::new();
        let ghost none = forward@.map_values(|s: Signal| s@);
        assert(none =~= Seq::empty());
        match signal {
            Signal::Disconnect => Reaction { exit: true, stop_reliable: false, forward },
            Signal::NewTarget(target) => {
                let stop: bool = self.tcp_tx;
                if stop {
                    self.tcp_connected = false;
                }
                self.target_ip = target.clone();
                forward.push(Signal::NewTarget(target));
                assert(forward@.map_values(|s: Signal| s@) =~= seq![signal@]);
                Reaction { exit: false, stop_reliable: stop, forward }
            },
            Signal::NewMode(mode) => {
                let current: DsMode = *send.ds_mode();
                if mode == current {
                    return Reaction { exit: false, stop_reliable: false, forward };
                }
                let stop: bool = self.tcp_tx;
                if stop {
                    self.tcp_connected = false;
                }
                send.set_ds_mode(mode);
                if mode == DsMode::Normal {
                    forward.push(Signal::NewTarget(self.target_ip.clone()));
                }
                forward.push(Signal::NewMode(mode));
                assert(forward@.map_values(|s: Signal| s@) =~= old(self)@.reaction(
                    current,
                    signal@,
                ).forward);
                Reaction { exit: false, stop_reliable: stop, forward }
            },
        }
    }
}

/// Where a socket is to be connected.
#[derive(Debug)]
pub struct Endpoint {
    pub host: String,
    pub port: u16,
}

/// Where the sending socket is to be connected after a signal: at the new target, or
/// at the simulator when simulation mode begins. Other signals leave it where it is.
pub open spec fn endpoint_after_signal(signal: SignalView) -> Option<(Seq<char>, u16)> {
    match signal {
        SignalView::NewTarget(target) => Some((target, CONTROL_PORT)),
        SignalView::NewMode(DsMode::Simulation) => Some(("127.0.0.1"@, CONTROL_PORT)),
        _ => None,
    }
}

/// What the task that sends control datagrams keeps between events.
pub struct SendTask {
    backoff: ExponentialBackoff,
}

impl View for SendTask {
    type V = BackoffView;

    closed spec fn view(&self) -> BackoffView {
        self.backoff@
    }
}

impl SendTask {
    /// The sending task of a new session. It waits five seconds at most between two
    /// attempts.
    pub fn new() -> (r: SendTask)
        ensures
            r@ == BackoffView::initial(MAX_BACKOFF_MS),
    {
        SendTask { backoff: ExponentialBackoff::new(MAX_BACKOFF_MS) }
    }

    /// The milliseconds to wait before the next datagram is sent, if the transport
    /// refused the last one.
    pub fn wait(&self) -> (r: Option<u64>)
        ensures
            r == self@.timeout,
    {
        self.backoff.timeout()
    }

    /// Builds the bytes of the next control datagram, from the send substate and the
    /// joystick values that the caller's supplier returned.
    pub fn tick(&self, send: &mut SendState, joysticks: Vec<Vec<JoystickValue>>) -> (r: Vec<u8>)
        ensures
            r@ == old(send)@.datagram(joysticks@).wire(),
            final(send)@ == old(send)@.drained(),
    {
        send.control(joysticks).encode()
    }

    /// Takes note that the transport took the datagram: the backoff starts over and
    /// the sequence number moves on.
    pub fn sent(&mut self, send: &mut SendState)
        ensures
            final(self)@ == old(self)@.reset(),
            final(send)@ == old(send)@.increment_seqnum(),
    {
        self.backoff.reset();
        send.increment_seqnum();
    }

    /// Takes note that the transport refused the datagram, with a random part of the
    /// next wait of `jitter` milliseconds. The first refusal since the last success is
    /// reported as `TransportUnavailable`; if it is a refused connection, the receive
    /// substate is cleared, since the controller may be gone.
    pub fn refused_with(&mut self, recv: &mut RecvState, connection_refused: bool, jitter: u64) -> (r:
        Option<DsError>)
        ensures
            final(self)@ == old(self)@.fail(jitter),
            r == if old(self)@.attempt == 0 {
                Some(DsError::TransportUnavailable)
            } else {
                None
            },
            final(recv)@ == if old(self)@.attempt == 0 && connection_refused {
                RecvStateView::cleared()
            } else {
                old(recv)@
            },
    {
        let first: bool = self.backoff.failed_with(jitter);
        if first && connection_refused {
            recv.reset();
        }
        if first {
            Some(DsError::TransportUnavailable)
        } else {
            None
        }
    }

    /// Takes note that the transport refused the datagram. The next wait has a random
    /// part of 1 to 999 milliseconds.
    pub fn refused(&mut self, recv: &mut RecvState, connection_refused: bool) -> (r: Option<
        DsError,
    >)
        ensures
            exists|jitter: u64| 1 <= jitter < 1000 && final(self)@ == old(self)@.fail(jitter),
            r == if old(self)@.attempt == 0 {
                Some(DsError::TransportUnavailable)
            } else {
                None
            },
            final(recv)@ == if old(self)@.attempt == 0 && connection_refused {
                RecvStateView::cleared()
            } else {
                old(recv)@
            },
    {
        let first: bool = self.backoff.failed();
        if first && connection_refused {
            recv.reset();
        }
        if first {
            Some(DsError::TransportUnavailable)
        } else {
            None
        }
    }

    /// Takes a signal that the receiving task handed on, and returns where the socket
    /// is to be connected now, if anywhere else. A change of target starts the
    /// sequence numbers and the backoff over, disables the robot and clears the
    /// receive substate.
    pub fn on_signal(&mut self, send: &mut SendState, recv: &mut RecvState, signal: &Signal) -> (r:
        Option<Endpoint>)
        ensures
            match endpoint_after_signal(signal@) {
                Some((host, port)) => {
                    &&& r matches Some(e) && e.host@ == host && e.port == port
                    &&& final(self)@ == old(self)@.reset()
                    &&& final(send)@ == old(send)@.retarget()
                    &&& final(recv)@ == RecvStateView::cleared()
                },
                None => {
                    &&& r is None
                    &&& final(self)@ == old(self)@
                    &&& final(send)@ == old(send)@
                    &&& final(recv)@ == old(recv)@
                },
            },
    {
        let host: String = match signal {
            Signal::NewTarget(ip) => ip.clone(),
            Signal::NewMode(DsMode::Simulation) => simulator_host(),
            _ => {
                return None;
            },
        };
        send.reset_seqnum();
        send.disable();
        recv.reset();
        self.backoff.reset();
        Some(Endpoint { host, port: CONTROL_PORT })
    }
}

/// The task that listens for a simulator.
pub struct SimProbe {
    opmode: DsMode,
}

impl View for SimProbe {
    type V = DsMode;

    closed spec fn view(&self) -> DsMode {
        self.opmode
    }
}

impl SimProbe {
    /// The probe of a new session, in normal mode.
    pub fn new() -> (r: SimProbe)
        ensures
            r@ == DsMode::Normal,
    {
        SimProbe { opmode: DsMode::Normal }
    }

    /// Takes the outcome of one read with a timeout of 250 ms, and returns the signal
    /// to send, if any. A datagram says that a simulator runs, silence that none does;
    /// a signal goes out when that changes the mode.
    pub fn on_read(&mut self, arrived: bool) -> (r: Option<Signal>)
        ensures
            final(self)@ == if arrived {
                DsMode::Simulation
            } else {
                DsMode::Normal
            },
            match r {
                Some(signal) => signal@ == SignalView::NewMode(final(self)@) && final(self)@
                    != old(self)@,
                None => final(self)@ == old(self)@,
            },
    {
        let next: DsMode = if arrived {
            DsMode::Simulation
        } else {
            DsMode::Normal
        };
        if self.opmode != next {
            self.opmode = next;
            Some(Signal::NewMode(next))
        } else {
            None
        }
    }
}

} // verus!
