//! Verified core of a vehicle data-acquisition system: the wire formats spoken
//! between sensor nodes, the USB bridge and the Raspberry Pi receiver, and the
//! decisions the firmware and the receiver take around them.

pub mod wire;
pub mod cobs_frame;
pub mod text;
pub mod board;
pub mod receiver;
pub mod link;
pub mod asm330;
pub mod plotter;
