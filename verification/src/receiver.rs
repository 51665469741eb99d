//! Raspberry Pi receiver: decoding the bridge's COBS stream and the decisions
//! of a logging session.

pub mod types;
pub mod session;
pub mod timesync;
pub mod track_capture;
pub mod camera;
pub mod gpio;
pub mod console;
