//! The driver station's state and the decisions of its connection tasks.

use vstd::prelude::*;
use crate::error::DsError;
use crate::util::ip_from_team_number;
use crate::util::team_ip;
use self::conn::usb_host;
use self::state::DsMode;

pub mod conn;
pub mod state;

verus! {

/// A value read from a joystick, ready to be sent to the controller.
#[derive(Debug, Clone, Copy, PartialEq, Eq, Structural)]
pub enum JoystickValue {
    /// An axis, zero to five, and its position as it goes on the wire: -128 to 127.
    Axis { id: u8, value: i8 },
    /// A button, one to ten, and whether it is pressed.
    Button { id: u8, pressed: bool },
    /// The directional pad, number zero, and its angle.
    POV { id: u8, angle: i16 },
}

impl JoystickValue {
    /// The number of the axis, button or pad that the value belongs to.
    pub fn id(self) -> (r: u8)
        ensures
            r == match self {
                JoystickValue::Axis { id, .. } => id,
                JoystickValue::Button { id, .. } => id,
                JoystickValue::POV { id, .. } => id,
            },
    {
        match self {
            JoystickValue::Axis { id, .. } => id,
            JoystickValue::Button { id, .. } => id,
            JoystickValue::POV { id, .. } => id,
        }
    }

    pub fn is_axis(self) -> (r: bool)
        ensures
            r == (self is Axis),
    {
        match self {
            JoystickValue::Axis { .. } => true,
            _ => false,
        }
    }

    pub fn is_button(self) -> (r: bool)
        ensures
            r == (self is Button),
    {
        match self {
            JoystickValue::Button { .. } => true,
            _ => false,
        }
    }

    pub fn is_pov(self) -> (r: bool)
        ensures
            r == (self is POV),
    {
        match self {
            JoystickValue::POV { .. } => true,
            _ => false,
        }
    }
}

/// A signal to the connection tasks as a plain value.
pub enum SignalView {
    Disconnect,
    NewTarget(Seq<char>),
    NewMode(DsMode),
}

/// What the caller, or one connection task, tells the connection tasks.
#[derive(Debug)]
pub enum Signal {
    /// The session ends.
    Disconnect,
    /// The controller is now to be found at this address.
    NewTarget(String),
    /// The driver station is to go over to this operating mode.
    NewMode(DsMode),
}

impl View for Signal {
    type V = SignalView;

    open spec fn view(&self) -> SignalView {
        match self {
            Signal::Disconnect => SignalView::Disconnect,
            Signal::NewTarget(target) => SignalView::NewTarget(target@),
            Signal::NewMode(mode) => SignalView::NewMode(*mode),
        }
    }
}

/// The largest team number that has a controller address.
pub const MAX_TEAM: u32 = 9999;

/// The address of the controller of a team, for the team numbers from 1 to 9999.
pub open spec fn team_target(team_number: u32) -> Result<Seq<char>, DsError> {
    if 1 <= team_number <= MAX_TEAM {
        Ok(team_ip(team_number as nat))
    } else {
        Err(DsError::TargetUnresolvable)
    }
}

/// The address of the controller of a team. It fails with `TargetUnresolvable` for a
/// team number that is zero or has more than four digits.
pub fn resolve_team(team_number: u32) -> (r: Result<String, DsError>)
    ensures
        match team_target(team_number) {
            Ok(ip) => r matches Ok(s) && s@ == ip,
            Err(e) => r matches Err(f) && f == e,
        },
{
    if 1 <= team_number && team_number <= MAX_TEAM {
        Ok(ip_from_team_number(team_number))
    } else {
        Err(DsError::TargetUnresolvable)
    }
}

/// The part of the driver station that no connection task shares: the team number.
/// Its operations return the signal that is to be sent to the connection tasks.
pub struct DriverStation {
    team_number: u32,
}

impl View for DriverStation {
    type V = u32;

    closed spec fn view(&self) -> u32 {
        self.team_number
    }
}

impl DriverStation {
    /// A driver station for the given team, whatever the address of its controller.
    pub fn new(team_number: u32) -> (r: DriverStation)
        ensures
            r@ == team_number,
    {
        DriverStation { team_number }
    }

    /// A driver station for the given team, and the address `10.TE.AM.2` at which the
    /// team's controller is expected.
    pub fn new_team(team_number: u32) -> (r: Result<(DriverStation, String), DsError>)
        ensures
            match team_target(team_number) {
                Ok(ip) => r matches Ok((ds, s)) && ds@ == team_number && s@ == ip,
                Err(e) => r matches Err(f) && f == e,
            },
    {
        match resolve_team(team_number) {
            Ok(ip) => Ok((DriverStation { team_number }, ip)),
            Err(e) => Err(e),
        }
    }

    pub fn team_number(&self) -> (r: u32)
        ensures
            r == self@,
    {
        self.team_number
    }

    /// Changes the team number, and with it the address of the controller. A team
    /// number without an address changes nothing.
    pub fn set_team_number(&mut self, team_number: u32) -> (r: Result<Signal, DsError>)
        ensures
            match team_target(team_number) {
                Ok(ip) => {
                    &&& r matches Ok(signal) && signal@ == SignalView::NewTarget(ip)
                    &&& final(self)@ == team_number
                },
                Err(e) => r matches Err(f) && f == e && final(self)@ == old(self)@,
            },
    {
        match resolve_team(team_number) {
            Ok(ip) => {
                self.team_number = team_number;
                Ok(Signal::NewTarget(ip))
            },
            Err(e) => Err(e),
        }
    }

    /// Goes over to a controller attached by USB, at `172.22.11.2`, or back to the
    /// controller of the team.
    pub fn set_use_usb(&self, use_usb: bool) -> (r: Result<Signal, DsError>)
        ensures
            use_usb ==> (r matches Ok(signal) && signal@ == SignalView::NewTarget("172.22.11.2"@)),
            !use_usb ==> match team_target(self@) {
                Ok(ip) => r matches Ok(signal) && signal@ == SignalView::NewTarget(ip),
                Err(e) => r matches Err(f) && f == e,
            },
    {
        if use_usb {
            Ok(Signal::NewTarget(usb_host()))
        } else {
            match resolve_team(self.team_number) {
                Ok(ip) => Ok(Signal::NewTarget(ip)),
                Err(e) => Err(e),
            }
        }
    }
}

} // verus!
