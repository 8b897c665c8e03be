//! The control, request and alliance bytes of a control datagram.

use vstd::prelude::*;

pub mod tags;

verus! {

/// The control byte: emergency stop, enable and field connection flags over the mode in
/// the two lowest bits.
#[derive(Clone, Copy, Debug)]
pub struct Control {
    bits: u8,
}

impl View for Control {
    type V = u8;

    closed spec fn view(&self) -> u8 {
        self.bits
    }
}

impl Control {
    /// Stop all outputs until the robot code restarts.
    pub const ESTOP: u8 = 0x80;

    /// A field management system is connected.
    pub const FMS_CONNECTED: u8 = 0x08;

    /// Enable the outputs.
    pub const ENABLED: u8 = 0x04;

    /// Mode code of teleoperated mode.
    pub const TELEOP: u8 = 0x00;

    /// Mode code of test mode.
    pub const TEST: u8 = 0x01;

    /// Mode code of autonomous mode.
    pub const AUTO: u8 = 0x02;

    /// Every bit that a control byte may have set.
    pub const ALL: u8 = 0x8F;

    /// Whether a byte has no bit set that a control byte cannot have.
    pub open spec fn accepts(bits: u8) -> bool {
        bits & !Control::ALL == 0
    }

    #[verifier::type_invariant]
    closed spec fn well_formed(self) -> bool {
        Control::accepts(self.bits)
    }

    /// The control byte with these bits, if none of them is unknown.
    pub fn from_bits(bits: u8) -> (r: Option<Control>)
        ensures
            r is Some <==> Control::accepts(bits),
            r matches Some(c) ==> c@ == bits,
    {
        if bits & !Control::ALL == 0 {
            Some(Control { bits })
        } else {
            None
        }
    }

    /// The control byte with no bit set.
    pub fn empty() -> (r: Control)
        ensures
            r@ == 0,
    {
        assert(0u8 & !0x8Fu8 == 0) by (bit_vector);
        Control { bits: 0 }
    }

    /// The byte as it stands on the wire.
    pub fn bits(self) -> (r: u8)
        ensures
            r == self@,
            Control::accepts(r),
    {
        proof {
            use_type_invariant(&self);
        }
        self.bits
    }

    /// The control byte with the enable flag alone.
    pub fn enabled() -> (r: Control)
        ensures
            r@ == Control::ENABLED,
    {
        assert(0x04u8 & !0x8Fu8 == 0) by (bit_vector);
        Control { bits: Control::ENABLED }
    }

    /// The control byte with the emergency stop flag alone.
    pub fn estop() -> (r: Control)
        ensures
            r@ == Control::ESTOP,
    {
        assert(0x80u8 & !0x8Fu8 == 0) by (bit_vector);
        Control { bits: Control::ESTOP }
    }

    /// Whether every bit of `flags` is set.
    pub fn contains(self, flags: u8) -> (r: bool)
        ensures
            r == (self@ & flags == flags),
    {
        self.bits & flags == flags
    }

    /// The control byte that has the bits of both.
    pub fn union(self, other: Control) -> (r: Control)
        ensures
            r@ == self@ | other@,
    {
        proof {
            use_type_invariant(&self);
            use_type_invariant(&other);
        }
        let a: u8 = self.bits;
        let b: u8 = other.bits;
        assert((a | b) & !0x8Fu8 == 0) by (bit_vector)
            requires
                a & !0x8Fu8 == 0,
                b & !0x8Fu8 == 0,
        ;
        Control { bits: a | b }
    }
}

/// A request that rides on one control datagram.
#[derive(Clone, Copy, Debug, PartialEq, Eq, Structural)]
pub enum Request {
    /// Reboot the controller.
    RebootRoborio,
    /// Restart the robot code.
    RestartCode,
}

impl Request {
    /// Request byte that asks for a reboot of the controller.
    pub const REBOOT_ROBORIO: u8 = 0x08;

    /// Request byte that asks for a restart of the robot code.
    pub const RESTART_CODE: u8 = 0x04;

    /// The request byte of this request.
    pub open spec fn code(self) -> u8 {
        match self {
            Request::RebootRoborio => Request::REBOOT_ROBORIO,
            Request::RestartCode => Request::RESTART_CODE,
        }
    }

    /// The request byte of a datagram that carries this request, or none: zero stands
    /// for no request.
    pub open spec fn wire(request: Option<Request>) -> u8 {
        match request {
            Some(r) => r.code(),
            None => 0,
        }
    }

    /// The request that a request byte stands for. `None` for a byte that is neither
    /// zero nor the byte of a request.
    pub open spec fn parse(byte: u8) -> Option<Option<Request>> {
        if byte == 0 {
            Some(None)
        } else if byte == Request::REBOOT_ROBORIO {
            Some(Some(Request::RebootRoborio))
        } else if byte == Request::RESTART_CODE {
            Some(Some(Request::RestartCode))
        } else {
            None
        }
    }

    /// The byte as it stands on the wire.
    pub fn bits(self) -> (r: u8)
        ensures
            r == self.code(),
    {
        match self {
            Request::RebootRoborio => Request::REBOOT_ROBORIO,
            Request::RestartCode => Request::RESTART_CODE,
        }
    }

    /// The request with this byte.
    pub fn from_bits(bits: u8) -> (r: Option<Request>)
        ensures
            r == match Request::parse(bits) {
                Some(Some(q)) => Some(q),
                _ => None,
            },
    {
        if bits == Request::REBOOT_ROBORIO {
            Some(Request::RebootRoborio)
        } else if bits == Request::RESTART_CODE {
            Some(Request::RestartCode)
        } else {
            None
        }
    }
}

/// The alliance station of the operator: a byte from zero to five, red one to three and
/// then blue one to three.
#[derive(Clone, Copy, Debug, PartialEq, Eq, Structural)]
pub struct Alliance(pub u8);

impl Alliance {
    /// The station at `position`, one to three, of the red alliance.
    pub fn new_red(position: u8) -> (r: Alliance)
        requires
            1 <= position,
        ensures
            r.0 == position - 1,
    {
        Alliance(position - 1)
    }

    /// The station at `position`, one to three, of the blue alliance.
    pub fn new_blue(position: u8) -> (r: Alliance)
        requires
            position <= 253,
        ensures
            r.0 == position + 2,
    {
        Alliance(position + 2)
    }

    /// Whether the station belongs to the red alliance.
    pub fn is_red(self) -> (r: bool)
        ensures
            r == (self.0 < 3),
    {
        self.0 < 3
    }

    /// Whether the station belongs to the blue alliance.
    pub fn is_blue(self) -> (r: bool)
        ensures
            r == !(self.0 < 3),
    {
        !self.is_red()
    }

    /// The position of the station within its alliance, one to three.
    pub fn position(self) -> (r: u8)
        ensures
            r == self.0 % 3 + 1,
    {
        (self.0 % 3) + 1
    }
}

} // verus!
