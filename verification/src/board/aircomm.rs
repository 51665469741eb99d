//! Air communication between ESP-NOW nodes: message types and their wire format.

pub mod error;
pub mod message;
pub mod protocol;
