//! Tags that may follow the fixed part of a status datagram.
//!
//! A tag is an id byte and a payload whose length the id fixes.

use bytes::Bytes;
use vstd::prelude::*;
use crate::error::DecodeError;
use crate::ext::after_read;
use crate::ext::be_u16;
use crate::ext::be_u32;
use crate::ext::get_u16;
use crate::ext::get_u32;
use crate::ext::remaining;
use crate::ext::unread;

verus! {

/// The tags that a status datagram can carry.
#[derive(Clone, Copy, Debug, PartialEq, Eq, Structural)]
pub enum TagType {
    JoystickOutput,
    DiskInfo,
    CPUInfo,
    RAMInfo,
    PDPLog,
    Unknown,
    CANMetrics,
}

impl TagType {
    /// The tag with the given id, if there is one.
    pub open spec fn of_id(id: u8) -> Option<TagType> {
        if id == 0x01 {
            Some(TagType::JoystickOutput)
        } else if id == 0x04 {
            Some(TagType::DiskInfo)
        } else if id == 0x05 {
            Some(TagType::CPUInfo)
        } else if id == 0x06 {
            Some(TagType::RAMInfo)
        } else if id == 0x08 {
            Some(TagType::PDPLog)
        } else if id == 0x09 {
            Some(TagType::Unknown)
        } else if id == 0x0e {
            Some(TagType::CANMetrics)
        } else {
            None
        }
    }

    /// The number of bytes that follow the id.
    pub open spec fn size(self) -> nat {
        match self {
            TagType::JoystickOutput => 8,
            TagType::DiskInfo => 4,
            TagType::CPUInfo => 20,
            TagType::RAMInfo => 8,
            TagType::PDPLog => 25,
            TagType::Unknown => 9,
            TagType::CANMetrics => 14,
        }
    }

    /// The tag with the given id, if there is one.
    pub fn from_id(id: u8) -> (r: Option<TagType>)
        ensures
            r == TagType::of_id(id),
    {
        match id {
            0x01 => Some(TagType::JoystickOutput),
            0x04 => Some(TagType::DiskInfo),
            0x05 => Some(TagType::CPUInfo),
            0x06 => Some(TagType::RAMInfo),
            0x08 => Some(TagType::PDPLog),
            0x09 => Some(TagType::Unknown),
            0x0e => Some(TagType::CANMetrics),
            _ => None,
        }
    }

    /// The number of bytes that follow the id.
    pub fn payload_len(self) -> (r: usize)
        ensures
            r == self.size(),
    {
        match self {
            TagType::JoystickOutput => 8,
            TagType::DiskInfo => 4,
            TagType::CPUInfo => 20,
            TagType::RAMInfo => 8,
            TagType::PDPLog => 25,
            TagType::Unknown => 9,
            TagType::CANMetrics => 14,
        }
    }
}

/// What the robot code asks the joysticks to do: outputs and the two rumble motors.
#[derive(Clone, Copy, Debug, PartialEq, Eq, Structural)]
pub struct JoystickOutput {
    pub output: u32,
    pub left: u16,
    pub right: u16,
}

impl JoystickOutput {
    /// The value that the first eight bytes encode.
    pub open spec fn of_bytes(bytes: Seq<u8>) -> JoystickOutput {
        JoystickOutput {
            output: be_u32(bytes) as u32,
            left: be_u16(bytes.skip(4)) as u16,
            right: be_u16(bytes.skip(6)) as u16,
        }
    }

    /// Reads the eight bytes of the tag.
    pub fn decode(buf: &mut Bytes) -> (r: Result<JoystickOutput, DecodeError>)
        ensures
            unread(*final(buf)) == after_read(unread(*old(buf)), 8),
            unread(*old(buf)).len() >= 8 ==> r == Ok::<JoystickOutput, DecodeError>(
                JoystickOutput::of_bytes(unread(*old(buf))),
            ),
            unread(*old(buf)).len() < 8 ==> r == Err::<JoystickOutput, DecodeError>(
                DecodeError::UnexpectedEof,
            ),
    {
        if remaining(buf) < 8 {
            return Err(DecodeError::UnexpectedEof);
        }
        let output: u32 = get_u32(buf);
        let left: u16 = get_u16(buf);
        let right: u16 = get_u16(buf);
        Ok(JoystickOutput { output, left, right })
    }
}

/// The free space on the controller's disk.
#[derive(Clone, Copy, Debug, PartialEq, Eq, Structural)]
pub struct DiskInfo {
    pub free_space: u32,
}

impl DiskInfo {
    /// Reads the four bytes of the tag.
    pub fn decode(buf: &mut Bytes) -> (r: Result<DiskInfo, DecodeError>)
        ensures
            unread(*final(buf)) == after_read(unread(*old(buf)), 4),
            unread(*old(buf)).len() >= 4 ==> r == Ok::<DiskInfo, DecodeError>(
                DiskInfo { free_space: be_u32(unread(*old(buf))) as u32 },
            ),
            unread(*old(buf)).len() < 4 ==> r == Err::<DiskInfo, DecodeError>(
                DecodeError::UnexpectedEof,
            ),
    {
        if remaining(buf) < 4 {
            return Err(DecodeError::UnexpectedEof);
        }
        let free_space: u32 = get_u32(buf);
        Ok(DiskInfo { free_space })
    }
}

} // verus!
