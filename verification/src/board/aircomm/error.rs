//! Errors of the air communication layer.

use vstd::prelude::*;

verus! {

/// Errors that can occur while building or reading air messages.
#[derive(Debug, Clone, Copy, PartialEq, Eq, Structural)]
pub enum AirCommError {
    /// Buffer too small for serialization.
    BufferTooSmall,
    /// Invalid message format.
    InvalidMessage,
    /// Unknown message type.
    UnknownMessageType,
}

} // verus!
