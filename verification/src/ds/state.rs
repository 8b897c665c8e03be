//! The state that the connection tasks and the caller share.

use vstd::prelude::*;
use crate::proto::udp::inbound::types::Status;
use crate::proto::udp::outbound::types::Control;

pub mod recv;
pub mod send;

verus! {

/// The operating mode of the driver station. In normal mode it talks to the controller
/// of its team, in simulation mode to a simulator on the local machine.
#[derive(Debug, Clone, Copy, PartialEq, Eq, Structural)]
pub enum DsMode {
    Normal,
    Simulation,
}

/// The mode that the robot is in. It is independent of whether the robot is enabled.
#[derive(Clone, Copy, Debug, PartialEq, Eq, Structural)]
pub enum Mode {
    Autonomous,
    Teleoperated,
    Test,
}

impl Mode {
    /// The two-bit code of the mode in a control or status byte.
    pub open spec fn code(self) -> u8 {
        match self {
            Mode::Teleoperated => 0,
            Mode::Test => 1,
            Mode::Autonomous => 2,
        }
    }

    /// The mode with the given two-bit code. The code three stands for no mode.
    pub open spec fn of_code(code: u8) -> Option<Mode> {
        if code == 0 {
            Some(Mode::Teleoperated)
        } else if code == 1 {
            Some(Mode::Test)
        } else if code == 2 {
            Some(Mode::Autonomous)
        } else {
            None
        }
    }

    /// Decodes the mode of the robot from the two lowest bits of a status byte.
    pub fn from_status(status: Status) -> (r: Option<Mode>)
        ensures
            r == Mode::of_code(status@ & 3),
    {
        let code: u8 = status.bits() & 3;
        if code == Status::TELEOP {
            Some(Mode::Teleoperated)
        } else if code == Status::TEST {
            Some(Mode::Test)
        } else if code == Status::AUTO {
            Some(Mode::Autonomous)
        } else {
            None
        }
    }

    /// The control byte that selects this mode and sets no flag.
    pub fn to_control(&self) -> (r: Control)
        ensures
            r@ == self.code(),
    {
        let code: u8 = match *self {
            Mode::Teleoperated => Control::TELEOP,
            Mode::Autonomous => Control::AUTO,
            Mode::Test => Control::TEST,
        };
        assert(code & !0x8Fu8 == 0) by (bit_vector)
            requires
                code <= 2,
        ;
        Control::from_bits(code).unwrap()
    }
}

} // verus!
