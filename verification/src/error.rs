//! Error kinds surfaced by the protocol engine.

use vstd::prelude::*;

verus! {

/// Why a caller's request was refused.
#[derive(Clone, Copy, Debug, PartialEq, Eq, Structural)]
pub enum DsError {
    /// An argument does not have the required shape.
    InvalidArgument,
    /// The first refused send after a working connection.
    TransportUnavailable,
    /// A reliable tag was queued while no reliable stream is bound.
    ReliableChannelUnavailable,
    /// An inbound frame is malformed.
    Decode,
    /// No controller address can be derived from the team number.
    TargetUnresolvable,
}

/// Why bytes could not be decoded.
#[derive(Clone, Copy, Debug, PartialEq, Eq, Structural)]
pub enum DecodeError {
    /// The input ends before the value does.
    UnexpectedEof,
    /// The bytes are all there and do not form a valid value.
    Malformed,
}

} // verus!
