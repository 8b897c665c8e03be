//! The send substate: what the next control datagram will say.

use vstd::prelude::*;
use crate::ds::state::DsMode;
use crate::ds::state::Mode;
use crate::ds::JoystickValue;
use crate::proto::udp::inbound::types::Status;
use crate::proto::udp::inbound::types::Trace;
use crate::proto::udp::outbound::types::tags::Joysticks;
use crate::proto::udp::outbound::types::tags::JoysticksView;
use crate::proto::udp::outbound::types::tags::UdpTag;
use crate::proto::udp::outbound::types::tags::UdpTagView;
use crate::proto::udp::outbound::types::Alliance;
use crate::proto::udp::outbound::types::Control;
use crate::proto::udp::outbound::types::Request;
use crate::proto::udp::outbound::tag_views;
use crate::proto::udp::outbound::UdpControlPacket;
use crate::proto::udp::outbound::UdpControlPacketView;

verus! {

/// The number of axes that a joystick tag carries.
pub const AXES: usize = 6;

/// The number of buttons that a joystick tag carries.
pub const BUTTONS: usize = 10;

/// The position of axis `id` after the given values: that of the last value for this
/// axis, zero if there is none.
pub open spec fn axis_after(values: Seq<JoystickValue>, id: int) -> i8
    decreases values.len(),
{
    if values.len() == 0 {
        0
    } else {
        match values.last() {
            JoystickValue::Axis { id: a, value } if a == id => value,
            _ => axis_after(values.drop_last(), id),
        }
    }
}

/// Whether button `id` is pressed after the given values: what the last value for this
/// button says, released if there is none.
pub open spec fn button_after(values: Seq<JoystickValue>, id: int) -> bool
    decreases values.len(),
{
    if values.len() == 0 {
        false
    } else {
        match values.last() {
            JoystickValue::Button { id: b, pressed } if b == id => pressed,
            _ => button_after(values.drop_last(), id),
        }
    }
}

/// The angle of pad `id` after the given values: that of the last value for this pad,
/// -1 if there is none.
pub open spec fn pov_after(values: Seq<JoystickValue>, id: int) -> i16
    decreases values.len(),
{
    if values.len() == 0 {
        -1i16
    } else {
        match values.last() {
            JoystickValue::POV { id: p, angle } if p == id => angle,
            _ => pov_after(values.drop_last(), id),
        }
    }
}

/// The joystick tag for one group of values: six axes, ten buttons numbered from one and
/// one pad, each with the last value given for it, or at rest. A value for an axis, a
/// button or a pad that the tag does not carry changes nothing.
pub open spec fn joystick_frame(values: Seq<JoystickValue>) -> JoysticksView {
    JoysticksView {
        axes: Seq::new(AXES as nat, |i: int| axis_after(values, i)),
        buttons: Seq::new(BUTTONS as nat, |i: int| button_after(values, i + 1)),
        povs: seq![pov_after(values, 0)],
    }
}

/// One joystick tag for each group of values.
pub open spec fn joystick_tags(groups: Seq<Vec<JoystickValue>>) -> Seq<UdpTagView> {
    groups.map_values(|g: Vec<JoystickValue>| UdpTagView::Joysticks(joystick_frame(g@)))
}

/// The control byte for a mode and the two flags that the send substate holds.
pub open spec fn control_bits(mode: Mode, enabled: bool, estopped: bool) -> u8 {
    mode.code() | (if enabled {
        Control::ENABLED
    } else {
        0
    }) | (if estopped {
        Control::ESTOP
    } else {
        0
    })
}

/// The value of the control byte: the mode's code, plus four when enabled, plus 128
/// when stopped.
pub proof fn lemma_control_bits(mode: Mode, enabled: bool, estopped: bool)
    ensures
        control_bits(mode, enabled, estopped) == mode.code() + (if enabled {
            4int
        } else {
            0
        }) + (if estopped {
            128int
        } else {
            0
        }),
        Control::accepts(control_bits(mode, enabled, estopped)),
        control_bits(mode, enabled, estopped) & Control::ENABLED == Control::ENABLED <==> enabled,
        control_bits(mode, enabled, estopped) & Control::ESTOP == Control::ESTOP <==> estopped,
        control_bits(mode, enabled, estopped) & 3 == mode.code(),
{
    let m: u8 = mode.code();
    let e: u8 = if enabled {
        4
    } else {
        0
    };
    let s: u8 = if estopped {
        128
    } else {
        0
    };
    let c: u8 = m | e | s;
    assert(c == m + e + s && c & !0x8Fu8 == 0 && ((c & 4 == 4) <==> e == 4) && ((c & 128 == 128)
        <==> s == 128) && c & 3 == m) by (bit_vector)
        requires
            m <= 2,
            e == 0 || e == 4,
            s == 0 || s == 128,
            c == m | e | s,
    ;
}

/// The send substate as a plain value.
pub struct SendStateView {
    pub mode: Mode,
    pub seqnum: u16,
    pub enabled: bool,
    pub estopped: bool,
    pub alliance: u8,
    pub pending_udp: Seq<UdpTagView>,
    pub pending_request: Option<Request>,
    pub ds_mode: DsMode,
}

impl SendStateView {
    /// A stopped robot is never enabled.
    pub open spec fn wf(self) -> bool {
        self.estopped ==> !self.enabled
    }

    /// The state of a new session.
    pub open spec fn initial(alliance: u8) -> SendStateView {
        SendStateView {
            mode: Mode::Autonomous,
            seqnum: 0,
            enabled: false,
            estopped: false,
            alliance,
            pending_udp: Seq::empty(),
            pending_request: None,
            ds_mode: DsMode::Normal,
        }
    }

    /// Enabling has no effect on a stopped robot.
    pub open spec fn enable(self) -> SendStateView {
        SendStateView { enabled: !self.estopped, ..self }
    }

    pub open spec fn disable(self) -> SendStateView {
        SendStateView { enabled: false, ..self }
    }

    /// An emergency stop disables the robot and latches.
    pub open spec fn estop(self) -> SendStateView {
        SendStateView { enabled: false, estopped: true, ..self }
    }

    /// What a status datagram does to the latch. A status byte with the stop flag sets
    /// it. Otherwise a trace byte without the robot code flag releases it: the code has
    /// been restarted. A status byte without the stop flag alone releases nothing, since
    /// the controller may not have seen the stop yet.
    pub open spec fn observe(self, status: u8, trace: u8) -> SendStateView {
        if status & 0x80 == 0x80 {
            self.estop()
        } else if trace & 0x20 == 0x20 {
            self
        } else {
            SendStateView { estopped: false, ..self }
        }
    }

    pub open spec fn increment_seqnum(self) -> SendStateView {
        SendStateView { seqnum: ((self.seqnum + 1) % 0x1_0000) as u16, ..self }
    }

    /// A change of target starts the sequence numbers over and disables the robot.
    pub open spec fn retarget(self) -> SendStateView {
        SendStateView { seqnum: 0, enabled: false, ..self }
    }

    /// The control byte of the next datagram.
    pub open spec fn control(self) -> u8 {
        control_bits(self.mode, self.enabled, self.estopped)
    }

    /// The next control datagram: the queued tags in the order in which they were
    /// queued, then one joystick tag for each group of values.
    pub open spec fn datagram(self, joysticks: Seq<Vec<JoystickValue>>) -> UdpControlPacketView {
        UdpControlPacketView {
            seqnum: self.seqnum,
            control: self.control(),
            request: self.pending_request,
            alliance: self.alliance,
            tags: self.pending_udp + joystick_tags(joysticks),
        }
    }

    /// The state once the datagram is built: the queue is empty and the request is gone.
    pub open spec fn drained(self) -> SendStateView {
        SendStateView { pending_udp: Seq::empty(), pending_request: None, ..self }
    }
}

/// What can happen to the send substate.
pub enum SendStep {
    /// The caller enables the robot.
    Enable,
    /// The caller disables the robot.
    Disable,
    /// The caller stops the robot.
    Estop,
    /// The caller selects a mode.
    SetMode(Mode),
    /// The caller selects an alliance station.
    SetAlliance(u8),
    /// The caller asks for a restart.
    Request(Request),
    /// A tag is queued.
    QueueUdp(UdpTagView),
    /// A status datagram arrives with these status and trace bytes.
    Observe { status: u8, trace: u8 },
    /// The operating mode changes.
    SetDsMode(DsMode),
    /// A control datagram is built.
    Built,
    /// The transport took a control datagram.
    Sent,
    /// The target changes.
    Retarget,
}

impl SendStateView {
    /// The state after one step.
    pub open spec fn step(self, step: SendStep) -> SendStateView {
        match step {
            SendStep::Enable => self.enable(),
            SendStep::Disable => self.disable(),
            SendStep::Estop => self.estop(),
            SendStep::SetMode(mode) => SendStateView { mode, ..self },
            SendStep::SetAlliance(alliance) => SendStateView { alliance, ..self },
            SendStep::Request(request) => SendStateView { pending_request: Some(request), ..self },
            SendStep::QueueUdp(tag) => SendStateView {
                pending_udp: self.pending_udp.push(tag),
                ..self
            },
            SendStep::Observe { status, trace } => self.observe(status, trace),
            SendStep::SetDsMode(ds_mode) => SendStateView { ds_mode, ..self },
            SendStep::Built => self.drained(),
            SendStep::Sent => self.increment_seqnum(),
            SendStep::Retarget => self.retarget(),
        }
    }

    /// The state after a row of steps.
    pub open spec fn steps(self, steps: Seq<SendStep>) -> SendStateView
        decreases steps.len(),
    {
        if steps.len() == 0 {
            self
        } else {
            self.steps(steps.drop_last()).step(steps.last())
        }
    }
}

/// Whether a step is a status datagram whose trace byte lacks the robot code flag and
/// whose status byte lacks the stop flag: the only step that releases the latch.
pub open spec fn releases(step: SendStep) -> bool {
    step matches SendStep::Observe { status, trace } && status & 0x80 != 0x80 && trace & 0x20
        != 0x20
}

/// Sequence numbers: of two control datagrams that the transport took one after the
/// other, with no change of target between them, the second has the sequence number of
/// the first plus one, and zero after 65535. Whatever else happens between the two,
/// datagrams that the transport refused included, changes nothing about that.
pub proof fn lemma_consecutive_seqnums(
    state: SendStateView,
    first: Seq<Vec<JoystickValue>>,
    between: Seq<SendStep>,
    second: Seq<Vec<JoystickValue>>,
)
    requires
        forall|i: int|
            0 <= i < between.len() ==> !(#[trigger] between[i] is Sent) && !(between[i]
                is Retarget),
    ensures
        state.drained().increment_seqnum().steps(between).datagram(second).seqnum == (
        state.datagram(first).seqnum + 1) % 0x1_0000,
    decreases between.len(),
{
    if between.len() > 0 {
        let earlier = between.drop_last();
        assert forall|i: int| 0 <= i < earlier.len() implies !(#[trigger] earlier[i] is Sent) && !(
        earlier[i] is Retarget) by {
            assert(earlier[i] == between[i]);
        }
        lemma_consecutive_seqnums(state, first, earlier, second);
    }
}

/// Emergency stop: the control datagram that follows a stop has the stop flag, and so
/// has every later one, without the enable flag, whatever the caller does, until a
/// status datagram comes whose trace byte lacks the robot code flag.
pub proof fn lemma_estop_latches(state: SendStateView, after: Seq<SendStep>)
    requires
        forall|i: int| 0 <= i < after.len() ==> !releases(#[trigger] after[i]),
    ensures
        state.estop().steps(after).estopped,
        !state.estop().steps(after).enabled,
        state.estop().steps(after).control() & Control::ESTOP == Control::ESTOP,
        state.estop().steps(after).control() & Control::ENABLED != Control::ENABLED,
    decreases after.len(),
{
    let start = state.estop();
    if after.len() > 0 {
        let earlier = after.drop_last();
        assert forall|i: int| 0 <= i < earlier.len() implies !releases(#[trigger] earlier[i]) by {
            assert(earlier[i] == after[i]);
        }
        lemma_estop_latches(state, earlier);
    }
    let last = start.steps(after);
    lemma_control_bits(last.mode, last.enabled, last.estopped);
}

/// Idempotence: to enable twice is to enable once, and to disable twice is to disable
/// once. The control byte is the same either way.
pub proof fn lemma_enable_disable_idempotent(state: SendStateView)
    ensures
        state.enable().enable() == state.enable(),
        state.enable().enable().control() == state.enable().control(),
        state.disable().disable() == state.disable(),
        state.disable().disable().control() == state.disable().control(),
{
}

/// Whether the outputs are enabled and whether a stop is latched. Never both.
#[derive(Clone, Copy)]
struct Outputs {
    enabled: bool,
    estopped: bool,
}

impl Outputs {
    #[verifier::type_invariant]
    closed spec fn stopped_means_disabled(self) -> bool {
        self.estopped ==> !self.enabled
    }
}

/// What the next control datagram will say.
pub struct SendState {
    mode: Mode,
    udp_seqnum: u16,
    outputs: Outputs,
    alliance: Alliance,
    pending_udp: Vec<UdpTag>,
    pending_request: Option<Request>,
    ds_mode: DsMode,
}

impl View for SendState {
    type V = SendStateView;

    closed spec fn view(&self) -> SendStateView {
        SendStateView {
            mode: self.mode,
            seqnum: self.udp_seqnum,
            enabled: self.outputs.enabled,
            estopped: self.outputs.estopped,
            alliance: self.alliance.0,
            pending_udp: tag_views(self.pending_udp@),
            pending_request: self.pending_request,
            ds_mode: self.ds_mode,
        }
    }
}

/// The joystick tag for one group of values.
fn joystick_tag(values: &Vec<JoystickValue>) -> (r: Joysticks)
    ensures
        r@ == joystick_frame(values@),
{
    let mut axes: Vec<i8> = vec![0i8; 6];
    let mut buttons: Vec<bool> = vec![false; 10];
    let mut povs: Vec<i16> = vec![-1i16; 1];
    let mut k: usize = 0;
    while k < values.len()
        invariant
            k <= values@.len(),
            axes@.len() == 6,
            buttons@.len() == 10,
            povs@.len() == 1,
            forall|i: int| 0 <= i < 6 ==> axes@[i] == axis_after(values@.take(k as int), i),
            forall|i: int|
                0 <= i < 10 ==> buttons@[i] == button_after(values@.take(k as int), i + 1),
            povs@[0] == pov_after(values@.take(k as int), 0),
        decreases values@.len() - k,
    {
        let ghost before = values@.take(k as int);
        let ghost after = values@.take(k + 1);
        assert(after.drop_last() =~= before);
        match values[k] {
            JoystickValue::Button { id, pressed } => {
                if id >= 1 && id <= 10 {
                    buttons.set((id - 1) as usize, pressed);
                }
            },
            JoystickValue::Axis { id, value } => {
                if id <= 5 {
                    axes.set(id as usize, value);
                }
            },
            JoystickValue::POV { id, angle } => {
                if id == 0 {
                    povs.set(0, angle);
                }
            },
        }
        k = k + 1;
    }
    assert(values@.take(k as int) =~= values@);
    let tag = Joysticks::new(axes, buttons, povs);
    assert(tag@.axes =~= joystick_frame(values@).axes);
    assert(tag@.buttons =~= joystick_frame(values@).buttons);
    assert(tag@.povs =~= joystick_frame(values@).povs);
    tag
}

impl SendState {
    /// The state of a new session: autonomous mode, disabled, nothing queued.
    pub fn new(alliance: Alliance) -> (r: SendState)
        ensures
            r@ == SendStateView::initial(alliance.0),
    {
        let state = SendState {
            mode: Mode::Autonomous,
            udp_seqnum: 0,
            outputs: Outputs { enabled: false, estopped: false },
            alliance,
            pending_udp: Vec::new(),
            pending_request: None,
            ds_mode: DsMode::Normal,
        };
        assert(state@.pending_udp =~= Seq::empty());
        state
    }

    /// Sets the request that the next datagram carries. An earlier request that was
    /// not sent yet is replaced.
    pub fn request(&mut self, request: Request)
        ensures
            final(self)@ == (SendStateView { pending_request: Some(request), ..old(self)@ }),
    {
        self.pending_request = Some(request);
    }

    /// Queues a tag for the next datagram, behind those already queued.
    pub fn queue_udp(&mut self, tag: UdpTag)
        ensures
            final(self)@ == (SendStateView {
                pending_udp: old(self)@.pending_udp.push(tag@),
                ..old(self)@
            }),
    {
        self.pending_udp.push(tag);
        assert(tag_views(self.pending_udp@) =~= tag_views(old(self).pending_udp@).push(tag@));
    }

    /// The tags that wait for the next datagram.
    pub fn pending_udp(&self) -> (r: &Vec<UdpTag>)
        ensures
            tag_views(r@) == self@.pending_udp,
    {
        &self.pending_udp
    }

    pub fn alliance(&self) -> (r: Alliance)
        ensures
            r.0 == self@.alliance,
    {
        self.alliance
    }

    pub fn set_alliance(&mut self, alliance: Alliance)
        ensures
            final(self)@ == (SendStateView { alliance: alliance.0, ..old(self)@ }),
    {
        self.alliance = alliance;
    }

    /// Builds the next control datagram from the state and from the joystick values
    /// that the caller's supplier returned, one group for each joystick. The queue and
    /// the request go into this datagram and into no other.
    pub fn control(&mut self, joysticks: Vec<Vec<JoystickValue>>) -> (packet: UdpControlPacket)
        ensures
            packet@ == old(self)@.datagram(joysticks@),
            final(self)@ == old(self)@.drained(),
            old(self)@.wf(),
    {
        proof {
            use_type_invariant(&self.outputs);
            lemma_control_bits(self.mode, self.outputs.enabled, self.outputs.estopped);
        }
        let mut tags: Vec<UdpTag> = Vec::new();
        core::mem::swap(&mut self.pending_udp, &mut tags);
        let mut i: usize = 0;
        while i < joysticks.len()
            invariant
                i <= joysticks@.len(),
                tag_views(tags@) == old(self)@.pending_udp + joystick_tags(
                    joysticks@.take(i as int),
                ),
            decreases joysticks@.len() - i,
        {
            let tag = UdpTag::Joysticks(joystick_tag(&joysticks[i]));
            let ghost queued = tags@;
            let ghost view = tag@;
            tags.push(tag);
            proof {
                assert(tag_views(tags@) =~= tag_views(queued).push(view));
            }
            i = i + 1;
        }
        assert(joysticks@.take(i as int) =~= joysticks@);
        let enabled: Control = if self.outputs.enabled {
            Control::enabled()
        } else {
            Control::empty()
        };
        let estopped: Control = if self.outputs.estopped {
            Control::estop()
        } else {
            Control::empty()
        };
        let control: Control = self.mode.to_control().union(enabled).union(estopped);
        let packet = UdpControlPacket {
            seqnum: self.udp_seqnum,
            control,
            request: self.pending_request.take(),
            alliance: self.alliance,
            tags,
        };
        assert(tag_views(self.pending_udp@) =~= Seq::empty());
        packet
    }

    pub fn mode(&self) -> (r: &Mode)
        ensures
            *r == self@.mode,
    {
        &self.mode
    }

    pub fn set_mode(&mut self, mode: Mode)
        ensures
            final(self)@ == (SendStateView { mode, ..old(self)@ }),
    {
        self.mode = mode;
    }

    pub fn ds_mode(&self) -> (r: &DsMode)
        ensures
            *r == self@.ds_mode,
    {
        &self.ds_mode
    }

    pub fn set_ds_mode(&mut self, mode: DsMode)
        ensures
            final(self)@ == (SendStateView { ds_mode: mode, ..old(self)@ }),
    {
        self.ds_mode = mode;
    }

    /// Moves on to the next sequence number. After 65535 comes zero.
    pub fn increment_seqnum(&mut self)
        ensures
            final(self)@ == old(self)@.increment_seqnum(),
    {
        self.udp_seqnum = self.udp_seqnum.wrapping_add(1);
    }

    pub fn reset_seqnum(&mut self)
        ensures
            final(self)@ == (SendStateView { seqnum: 0, ..old(self)@ }),
    {
        self.udp_seqnum = 0;
    }

    pub fn seqnum(&self) -> (r: u16)
        ensures
            r == self@.seqnum,
    {
        self.udp_seqnum
    }

    /// Enables the outputs of the robot, unless an emergency stop is latched.
    pub fn enable(&mut self)
        ensures
            final(self)@ == old(self)@.enable(),
    {
        if !self.outputs.estopped {
            self.outputs = Outputs { enabled: true, estopped: false };
        }
        proof {
            use_type_invariant(&self.outputs);
        }
    }

    /// Disables the outputs of the robot.
    pub fn disable(&mut self)
        ensures
            final(self)@ == old(self)@.disable(),
    {
        self.outputs = Outputs { enabled: false, estopped: self.outputs.estopped };
    }

    /// Whether the outputs are enabled. They never are while a stop is latched.
    pub fn enabled(&self) -> (r: bool)
        ensures
            r == self@.enabled,
            self@.wf(),
    {
        proof {
            use_type_invariant(&self.outputs);
        }
        self.outputs.enabled
    }

    /// Disables the outputs of the robot and keeps them disabled until the robot code
    /// has been restarted.
    pub fn estop(&mut self)
        ensures
            final(self)@ == old(self)@.estop(),
    {
        self.outputs = Outputs { enabled: false, estopped: true };
    }

    /// Takes note of the status and trace bytes of a status datagram. A status byte
    /// with the stop flag latches the stop. Without it, a trace byte without the robot
    /// code flag releases the latch.
    pub fn observe(&mut self, status: Status, trace: Trace)
        ensures
            final(self)@ == old(self)@.observe(status@, trace@),
    {
        if status.emergency_stopped() {
            self.estop();
        } else if !trace.is_code_started() {
            self.outputs = Outputs { enabled: self.outputs.enabled, estopped: false };
        }
    }

    /// Whether an emergency stop is latched. The outputs are disabled while it is.
    pub fn estopped(&self) -> (r: bool)
        ensures
            r == self@.estopped,
            self@.wf(),
    {
        proof {
            use_type_invariant(&self.outputs);
        }
        self.outputs.estopped
    }
}

} // verus!
