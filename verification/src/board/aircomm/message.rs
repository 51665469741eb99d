//! Message definitions for sensor data sent over ESP-NOW.

use vstd::prelude::*;
use crate::board::types::{GpsData, ImuData, NodeId};

verus! {

/// Message type discriminator (one byte on the wire). Sensor data uses 0x01
/// and 0x02 and the heartbeat 0xFF; the bridge's control messages take the
/// codes that follow the sensor data, 0x03 to 0x06, in the order listed.
#[derive(Debug, Clone, Copy, PartialEq, Eq, Structural)]
pub enum MessageType {
    /// IMU sensor data (0x01).
    Imu,
    /// GPS sensor data (0x02).
    Gps,
    /// Time synchronization from the bridge: the host's session time (0x03).
    TimeSync,
    /// The bridge asks the floating node for GPS samples; no payload (0x04).
    RequestGpsCapture,
    /// Track capture armed on the host; no payload (0x05).
    TrackCaptureArmed,
    /// Track capture ended on the host; no payload (0x06).
    TrackCaptureEnded,
    /// Heartbeat / keep-alive (0xFF).
    Heartbeat,
}

/// The wire code of a message type.
pub open spec fn message_type_code(t: MessageType) -> u8 {
    match t {
        MessageType::Imu => 0x01,
        MessageType::Gps => 0x02,
        MessageType::TimeSync => 0x03,
        MessageType::RequestGpsCapture => 0x04,
        MessageType::TrackCaptureArmed => 0x05,
        MessageType::TrackCaptureEnded => 0x06,
        MessageType::Heartbeat => 0xFF,
    }
}

/// The message type a wire code stands for, if any.
pub open spec fn message_type_of_code(v: u8) -> Option<MessageType> {
    if v == 0x01 {
        Some(MessageType::Imu)
    } else if v == 0x02 {
        Some(MessageType::Gps)
    } else if v == 0x03 {
        Some(MessageType::TimeSync)
    } else if v == 0x04 {
        Some(MessageType::RequestGpsCapture)
    } else if v == 0x05 {
        Some(MessageType::TrackCaptureArmed)
    } else if v == 0x06 {
        Some(MessageType::TrackCaptureEnded)
    } else if v == 0xFF {
        Some(MessageType::Heartbeat)
    } else {
        None
    }
}

impl MessageType {
    /// Reads a message type from its wire code.
    pub fn from_u8(value: u8) -> (t: Option<MessageType>)
        ensures
            t == message_type_of_code(value),
    {
        match value {
            0x01 => Some(MessageType::Imu),
            0x02 => Some(MessageType::Gps),
            0x03 => Some(MessageType::TimeSync),
            0x04 => Some(MessageType::RequestGpsCapture),
            0x05 => Some(MessageType::TrackCaptureArmed),
            0x06 => Some(MessageType::TrackCaptureEnded),
            0xFF => Some(MessageType::Heartbeat),
            _ => None,
        }
    }

    /// The wire code of this message type.
    pub fn to_u8(self) -> (v: u8)
        ensures
            v == message_type_code(self),
    {
        match self {
            MessageType::Imu => 0x01,
            MessageType::Gps => 0x02,
            MessageType::TimeSync => 0x03,
            MessageType::RequestGpsCapture => 0x04,
            MessageType::TrackCaptureArmed => 0x05,
            MessageType::TrackCaptureEnded => 0x06,
            MessageType::Heartbeat => 0xFF,
        }
    }
}

/// A message type is read back from its own code, and only codes of message
/// types are read as one.
pub proof fn lemma_message_type_code_round_trip(t: MessageType, v: u8)
    ensures
        message_type_of_code(message_type_code(t)) == Some(t),
        message_type_of_code(v) matches Some(u) ==> message_type_code(u) == v,
{
}

/// The wire codes: sensor data first (IMU 1, GPS 2), then the bridge's
/// control messages in turn (time sync 3, capture request 4, track capture
/// armed 5 and ended 6), and the heartbeat at the top of the byte, 0xFF.
pub proof fn law_message_type_codes(t: MessageType)
    ensures
        t == MessageType::Imu ==> message_type_code(t) == 1,
        t == MessageType::Gps ==> message_type_code(t) == 2,
        t == MessageType::TimeSync ==> message_type_code(t) == 3,
        t == MessageType::RequestGpsCapture ==> message_type_code(t) == 4,
        t == MessageType::TrackCaptureArmed ==> message_type_code(t) == 5,
        t == MessageType::TrackCaptureEnded ==> message_type_code(t) == 6,
        t == MessageType::Heartbeat ==> message_type_code(t) == u8::MAX,
{
}

/// Heartbeat payload: a magic byte for validation and the sender's node identifier.
#[derive(Debug, Clone, Copy, PartialEq, Eq, Structural)]
pub struct HeartbeatData {
    /// Magic byte for validation.
    pub magic: u8,
    /// Identifier of the sending node.
    pub node_id: NodeId,
}

/// Heartbeat payload size on the wire: magic, position, instance.
pub const HEARTBEAT_SERIALIZED_SIZE: usize = 3;

/// Default magic byte of a heartbeat.
pub const HEARTBEAT_DEFAULT_MAGIC: u8 = 0x42;

impl HeartbeatData {
    /// Creates a heartbeat with the given magic byte from this node.
    pub fn new(magic: u8) -> (h: HeartbeatData)
        ensures
            h.magic == magic,
            h.node_id == NodeId::default_spec(),
    {
        HeartbeatData { magic, node_id: NodeId::default() }
    }

    /// Creates a heartbeat with the default magic byte (0x42).
    pub fn default() -> (h: HeartbeatData)
        ensures
            h.magic == HEARTBEAT_DEFAULT_MAGIC,
            h.node_id == NodeId::default_spec(),
    {
        Self::new(HEARTBEAT_DEFAULT_MAGIC)
    }
}

/// IMU payload size: six 4-byte singles.
pub const IMU_SERIALIZED_SIZE: usize = 24;
/// GPS time size: year(2) month day hours minutes seconds (1 each) millis(2).
pub const GPS_TIME_SERIALIZED_SIZE: usize = 9;
/// GPS payload size: lat(8) lon(8) alt(4) speed(4) heading(2) time(9).
pub const GPS_SERIALIZED_SIZE: usize = 35;

/// Time synchronization payload: the host's session-elapsed time.
#[derive(Debug, Clone, Copy, PartialEq, Eq, Structural)]
pub struct TimeSyncData {
    /// Host session time in microseconds.
    pub session_time_us: u64,
}

/// Time synchronization payload size: one 8-byte time.
pub const TIMESYNC_SERIALIZED_SIZE: usize = 8;

impl TimeSyncData {
    /// A time synchronization carrying `session_time_us`.
    pub fn new(session_time_us: u64) -> (d: TimeSyncData)
        ensures
            d.session_time_us == session_time_us,
    {
        TimeSyncData { session_time_us }
    }
}

/// Sensor message payload.
#[derive(Debug, Clone, Copy, PartialEq, Eq, Structural)]
pub enum SensorPayload {
    Imu(ImuData),
    Gps(GpsData),
    Heartbeat(HeartbeatData),
    TimeSync(TimeSyncData),
    RequestGpsCapture,
    TrackCaptureArmed,
    TrackCaptureEnded,
}

/// The message type of a payload.
pub open spec fn payload_type(p: SensorPayload) -> MessageType {
    match p {
        SensorPayload::Imu(_) => MessageType::Imu,
        SensorPayload::Gps(_) => MessageType::Gps,
        SensorPayload::Heartbeat(_) => MessageType::Heartbeat,
        SensorPayload::TimeSync(_) => MessageType::TimeSync,
        SensorPayload::RequestGpsCapture => MessageType::RequestGpsCapture,
        SensorPayload::TrackCaptureArmed => MessageType::TrackCaptureArmed,
        SensorPayload::TrackCaptureEnded => MessageType::TrackCaptureEnded,
    }
}

impl SensorPayload {
    /// The message type of this payload.
    pub fn message_type(&self) -> (t: MessageType)
        ensures
            t == payload_type(*self),
    {
        match self {
            SensorPayload::Imu(_) => MessageType::Imu,
            SensorPayload::Gps(_) => MessageType::Gps,
            SensorPayload::Heartbeat(_) => MessageType::Heartbeat,
            SensorPayload::TimeSync(_) => MessageType::TimeSync,
            SensorPayload::RequestGpsCapture => MessageType::RequestGpsCapture,
            SensorPayload::TrackCaptureArmed => MessageType::TrackCaptureArmed,
            SensorPayload::TrackCaptureEnded => MessageType::TrackCaptureEnded,
        }
    }
}

/// A received sensor message with the sender's timestamp.
#[derive(Debug, Clone, Copy)]
pub struct SensorMessage {
    /// Source MAC address.
    pub src_address: [u8; 6],
    /// Sender's timestamp in microseconds.
    pub timestamp_us: u64,
    /// Message payload.
    pub payload: SensorPayload,
}

} // verus!
