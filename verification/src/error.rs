//! The connection-level error kinds. A transport failure and a protocol
//! violation are the only failures this library surfaces as errors; an
//! unrecognized event name is an ordinary event variant, never an error.

use vstd::prelude::*;

verus! {

/// A terminal connection failure.
#[derive(Clone, Copy, PartialEq, Eq, Structural, Debug)]
pub enum GatewayError {
    /// The transport failed to open, read, write or close.
    TransportError,
    /// A handshake step received the wrong opcode or shape, or an envelope
    /// failed to parse at the structural level.
    ProtocolViolation,
}

impl GatewayError {
    /// A short description, for callers that log errors.
    pub fn describe(&self) -> (r: &'static str)
        ensures
            self is TransportError ==> r@ == "transport failure"@,
            self is ProtocolViolation ==> r@ == "protocol violation"@,
    {
        match self {
            GatewayError::TransportError => "transport failure",
            GatewayError::ProtocolViolation => "protocol violation",
        }
    }
}

} // verus!
