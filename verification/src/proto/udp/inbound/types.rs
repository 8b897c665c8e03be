//! The status and trace bytes of a status datagram.

use vstd::prelude::*;

pub mod tags;

verus! {

/// The status byte that the controller reports: a set of flags over the mode in the two
/// lowest bits.
#[derive(Clone, Copy, Debug)]
pub struct Status {
    bits: u8,
}

impl View for Status {
    type V = u8;

    closed spec fn view(&self) -> u8 {
        self.bits
    }
}

impl Status {
    /// The controller has stopped all outputs until its code restarts.
    pub const ESTOP: u8 = 0x80;

    /// The battery voltage has dropped too far.
    pub const BROWNOUT: u8 = 0x10;

    /// The robot code is starting.
    pub const CODE_START: u8 = 0x08;

    /// The outputs are enabled.
    pub const ENABLED: u8 = 0x04;

    /// Mode code of teleoperated mode.
    pub const TELEOP: u8 = 0x00;

    /// Mode code of test mode.
    pub const TEST: u8 = 0x01;

    /// Mode code of autonomous mode.
    pub const AUTO: u8 = 0x02;

    /// Every bit that a status byte may have set.
    pub const ALL: u8 = 0x9F;

    /// Whether a byte has no bit set that a status byte cannot have.
    pub open spec fn accepts(bits: u8) -> bool {
        bits & !Status::ALL == 0
    }

    #[verifier::type_invariant]
    closed spec fn well_formed(self) -> bool {
        Status::accepts(self.bits)
    }

    /// The status byte with these bits, if none of them is unknown.
    pub fn from_bits(bits: u8) -> (r: Option<Status>)
        ensures
            r is Some <==> Status::accepts(bits),
            r matches Some(s) ==> s@ == bits,
    {
        if bits & !Status::ALL == 0 {
            Some(Status { bits })
        } else {
            None
        }
    }

    /// The status byte with no bit set.
    pub fn empty() -> (r: Status)
        ensures
            r@ == 0,
    {
        assert(0u8 & !0x9Fu8 == 0) by (bit_vector);
        Status { bits: 0 }
    }

    /// The byte as it stands on the wire.
    pub fn bits(self) -> (r: u8)
        ensures
            r == self@,
            Status::accepts(r),
    {
        proof {
            use_type_invariant(&self);
        }
        self.bits
    }

    /// Whether the controller reports a brownout.
    pub fn is_browning_out(self) -> (r: bool)
        ensures
            r == (self@ & Status::BROWNOUT == Status::BROWNOUT),
    {
        self.bits & Status::BROWNOUT == Status::BROWNOUT
    }

    /// Whether the controller reports an emergency stop.
    pub fn emergency_stopped(self) -> (r: bool)
        ensures
            r == (self@ & Status::ESTOP == Status::ESTOP),
    {
        self.bits & Status::ESTOP == Status::ESTOP
    }
}

/// The trace byte that the controller reports: what it is and what its code is doing.
#[derive(Clone, Copy, Debug)]
pub struct Trace {
    bits: u8,
}

impl View for Trace {
    type V = u8;

    closed spec fn view(&self) -> u8 {
        self.bits
    }
}

impl Trace {
    /// The robot code is running.
    pub const ROBOT_CODE: u8 = 0x20;

    /// The sender is a controller.
    pub const IS_ROBORIO: u8 = 0x10;

    /// Test mode is selected.
    pub const TEST_MODE: u8 = 0x08;

    /// Autonomous mode is selected.
    pub const AUTONOMOUS: u8 = 0x04;

    /// Teleoperated mode is selected.
    pub const TELEOP: u8 = 0x02;

    /// The robot is disabled.
    pub const DISABLED: u8 = 0x01;

    /// Every bit that a trace byte may have set.
    pub const ALL: u8 = 0x3F;

    /// Whether a byte has no bit set that a trace byte cannot have.
    pub open spec fn accepts(bits: u8) -> bool {
        bits & !Trace::ALL == 0
    }

    #[verifier::type_invariant]
    closed spec fn well_formed(self) -> bool {
        Trace::accepts(self.bits)
    }

    /// The trace byte with these bits, if none of them is unknown.
    pub fn from_bits(bits: u8) -> (r: Option<Trace>)
        ensures
            r is Some <==> Trace::accepts(bits),
            r matches Some(t) ==> t@ == bits,
    {
        if bits & !Trace::ALL == 0 {
            Some(Trace { bits })
        } else {
            None
        }
    }

    /// The trace byte with no bit set.
    pub fn empty() -> (r: Trace)
        ensures
            r@ == 0,
    {
        assert(0u8 & !0x3Fu8 == 0) by (bit_vector);
        Trace { bits: 0 }
    }

    /// The byte as it stands on the wire.
    pub fn bits(self) -> (r: u8)
        ensures
            r == self@,
            Trace::accepts(r),
    {
        proof {
            use_type_invariant(&self);
        }
        self.bits
    }

    /// Whether autonomous mode is selected.
    pub fn is_autonomous(self) -> (r: bool)
        ensures
            r == (self@ & Trace::AUTONOMOUS == Trace::AUTONOMOUS),
    {
        self.bits & Trace::AUTONOMOUS == Trace::AUTONOMOUS
    }

    /// Whether teleoperated mode is selected.
    pub fn is_teleop(self) -> (r: bool)
        ensures
            r == (self@ & Trace::TELEOP == Trace::TELEOP),
    {
        self.bits & Trace::TELEOP == Trace::TELEOP
    }

    /// Whether the robot is disabled.
    pub fn is_disabled(self) -> (r: bool)
        ensures
            r == (self@ & Trace::DISABLED == Trace::DISABLED),
    {
        self.bits & Trace::DISABLED == Trace::DISABLED
    }

    /// Whether test mode is selected.
    pub fn is_test(self) -> (r: bool)
        ensures
            r == (self@ & Trace::TEST_MODE == Trace::TEST_MODE),
    {
        self.bits & Trace::TEST_MODE == Trace::TEST_MODE
    }

    /// Whether the robot code is running.
    pub fn is_code_started(self) -> (r: bool)
        ensures
            r == (self@ & Trace::ROBOT_CODE == Trace::ROBOT_CODE),
    {
        self.bits & Trace::ROBOT_CODE == Trace::ROBOT_CODE
    }

    /// Whether the sender is a controller.
    pub fn is_connected(self) -> (r: bool)
        ensures
            r == (self@ & Trace::IS_ROBORIO == Trace::IS_ROBORIO),
    {
        self.bits & Trace::IS_ROBORIO == Trace::IS_ROBORIO
    }
}

} // verus!
