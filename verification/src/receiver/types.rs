//! Node identification and decoding of the messages the bridge forwards:
//! `[MAC:6][NodeId:2][timestamp:8 LE][type:1][payload]`.

use vstd::prelude::*;
use vstd::bytes::{spec_u16_from_le_bytes, spec_u32_from_le_bytes, spec_u64_from_le_bytes};
use crate::cobs_frame::CobsError;
use crate::wire::{get_u16_le, get_u32_le, get_u64_le};
use crate::text::{mac_text, mac_to_text};

verus! {

/// Position where a sensor node is installed on the car, as the receiver knows them.
#[derive(Debug, Clone, Copy, PartialEq, Eq, Structural)]
pub enum CarPosition {
    FrontLeft,
    FrontCenter,
    FrontRight,
    Left,
    Center,
    Right,
    RearLeft,
    RearCenter,
    RearRight,
    Roof,
    /// The GPS-only node used for track capture (code 254).
    Floating,
    /// Custom or unassigned position (code 255).
    Custom,
}

/// The position a wire code stands for; unknown codes read as `Custom`.
pub open spec fn position_of_code(v: u8) -> CarPosition {
    if v == 0 {
        CarPosition::FrontLeft
    } else if v == 1 {
        CarPosition::FrontCenter
    } else if v == 2 {
        CarPosition::FrontRight
    } else if v == 3 {
        CarPosition::Left
    } else if v == 4 {
        CarPosition::Center
    } else if v == 5 {
        CarPosition::Right
    } else if v == 6 {
        CarPosition::RearLeft
    } else if v == 7 {
        CarPosition::RearCenter
    } else if v == 8 {
        CarPosition::RearRight
    } else if v == 9 {
        CarPosition::Roof
    } else if v == 254 {
        CarPosition::Floating
    } else {
        CarPosition::Custom
    }
}

/// The human-readable name of a position.
pub open spec fn position_name(p: CarPosition) -> Seq<char> {
    match p {
        CarPosition::FrontLeft => "FrontLeft"@,
        CarPosition::FrontCenter => "FrontCenter"@,
        CarPosition::FrontRight => "FrontRight"@,
        CarPosition::Left => "Left"@,
        CarPosition::Center => "Center"@,
        CarPosition::Right => "Right"@,
        CarPosition::RearLeft => "RearLeft"@,
        CarPosition::RearCenter => "RearCenter"@,
        CarPosition::RearRight => "RearRight"@,
        CarPosition::Roof => "Roof"@,
        CarPosition::Floating => "Floating"@,
        CarPosition::Custom => "Custom"@,
    }
}

impl CarPosition {
    /// Converts a wire code to a position; unknown codes give `Custom`.
    pub fn from_u8(value: u8) -> (p: CarPosition)
        ensures
            p == position_of_code(value),
    {
        match value {
            0 => CarPosition::FrontLeft,
            1 => CarPosition::FrontCenter,
            2 => CarPosition::FrontRight,
            3 => CarPosition::Left,
            4 => CarPosition::Center,
            5 => CarPosition::Right,
            6 => CarPosition::RearLeft,
            7 => CarPosition::RearCenter,
            8 => CarPosition::RearRight,
            9 => CarPosition::Roof,
            254 => CarPosition::Floating,
            _ => CarPosition::Custom,
        }
    }

    /// The human-readable name of this position.
    pub fn as_str(&self) -> (s: &'static str)
        ensures
            s@ == position_name(*self),
    {
        match self {
            CarPosition::FrontLeft => {
                proof { reveal_strlit("FrontLeft"); }
                "FrontLeft"
            },
            CarPosition::FrontCenter => {
                proof { reveal_strlit("FrontCenter"); }
                "FrontCenter"
            },
            CarPosition::FrontRight => {
                proof { reveal_strlit("FrontRight"); }
                "FrontRight"
            },
            CarPosition::Left => {
                proof { reveal_strlit("Left"); }
                "Left"
            },
            CarPosition::Center => {
                proof { reveal_strlit("Center"); }
                "Center"
            },
            CarPosition::Right => {
                proof { reveal_strlit("Right"); }
                "Right"
            },
            CarPosition::RearLeft => {
                proof { reveal_strlit("RearLeft"); }
                "RearLeft"
            },
            CarPosition::RearCenter => {
                proof { reveal_strlit("RearCenter"); }
                "RearCenter"
            },
            CarPosition::RearRight => {
                proof { reveal_strlit("RearRight"); }
                "RearRight"
            },
            CarPosition::Roof => {
                proof { reveal_strlit("Roof"); }
                "Roof"
            },
            CarPosition::Floating => {
                proof { reveal_strlit("Floating"); }
                "Floating"
            },
            CarPosition::Custom => {
                proof { reveal_strlit("Custom"); }
                "Custom"
            },
        }
    }
}

/// Node identifier as decoded by the receiver.
#[derive(Debug, Clone, Copy, PartialEq, Eq, Structural)]
pub struct NodeId {
    pub position: CarPosition,
    pub instance: u8,
}

impl NodeId {
    /// Deserializes from two bytes `[position, instance]`.
    pub fn from_bytes(bytes: [u8; 2]) -> (id: NodeId)
        ensures
            id.position == position_of_code(bytes@[0]),
            id.instance == bytes@[1],
    {
        NodeId { position: CarPosition::from_u8(bytes[0]), instance: bytes[1] }
    }
}

/// Message type of a forwarded message.
#[derive(Debug, Clone, Copy, PartialEq, Eq, Structural)]
pub enum MessageType {
    /// IMU sample (0x01).
    Imu,
    /// GPS fix (0x02).
    Gps,
    /// Node heartbeat (0xFF).
    Heartbeat,
    /// The bridge's keep-alive while track capture is armed (0xFE); no payload.
    TrackCaptureHeartbeat,
    /// Any other code.
    Unknown,
}

/// The message type a code stands for.
pub open spec fn message_type_of_code(v: u8) -> MessageType {
    if v == 0x01 {
        MessageType::Imu
    } else if v == 0x02 {
        MessageType::Gps
    } else if v == 0xFF {
        MessageType::Heartbeat
    } else if v == 0xFE {
        MessageType::TrackCaptureHeartbeat
    } else {
        MessageType::Unknown
    }
}

/// The name a message type is logged under.
pub open spec fn message_type_name(t: MessageType) -> Seq<char> {
    match t {
        MessageType::Imu => "Imu"@,
        MessageType::Gps => "Gps"@,
        MessageType::Heartbeat => "Heartbeat"@,
        MessageType::TrackCaptureHeartbeat => "TrackCaptureHeartbeat"@,
        MessageType::Unknown => "Unknown"@,
    }
}

impl MessageType {
    /// Reads a message type from its code; unknown codes give `Unknown`.
    pub fn from_u8(value: u8) -> (t: MessageType)
        ensures
            t == message_type_of_code(value),
    {
        match value {
            0x01 => MessageType::Imu,
            0x02 => MessageType::Gps,
            0xFF => MessageType::Heartbeat,
            0xFE => MessageType::TrackCaptureHeartbeat,
            _ => MessageType::Unknown,
        }
    }

    /// The name this message type is logged under.
    pub fn as_str(&self) -> (s: &'static str)
        ensures
            s@ == message_type_name(*self),
    {
        match self {
            MessageType::Imu => {
                proof { reveal_strlit("Imu"); }
                "Imu"
            },
            MessageType::Gps => {
                proof { reveal_strlit("Gps"); }
                "Gps"
            },
            MessageType::Heartbeat => {
                proof { reveal_strlit("Heartbeat"); }
                "Heartbeat"
            },
            MessageType::TrackCaptureHeartbeat => {
                proof { reveal_strlit("TrackCaptureHeartbeat"); }
                "TrackCaptureHeartbeat"
            },
            MessageType::Unknown => {
                proof { reveal_strlit("Unknown"); }
                "Unknown"
            },
        }
    }
}

/// Readings of an IMU message, each an IEEE-754 single held as its bits.
#[derive(Debug, Clone, Copy, PartialEq, Eq, Structural)]
pub struct ImuReadings {
    pub accel_x_bits: u32,
    pub accel_y_bits: u32,
    pub accel_z_bits: u32,
    pub gyro_x_bits: u32,
    pub gyro_y_bits: u32,
    pub gyro_z_bits: u32,
}

/// Readings of a GPS message: lat/lon IEEE-754 doubles and alt/speed singles,
/// held as their bits, then heading and UTC time.
#[derive(Debug, Clone, Copy, PartialEq, Eq, Structural)]
pub struct GpsReadings {
    pub lat_bits: u64,
    pub lon_bits: u64,
    pub alt_bits: u32,
    pub speed_kts_bits: u32,
    pub heading: u16,
    pub utc_time_year: u16,
    pub utc_time_month: u8,
    pub utc_time_day: u8,
    pub utc_time_hours: u8,
    pub utc_time_minutes: u8,
    pub utc_time_seconds: u8,
    pub utc_time_millis: u16,
}

/// One decoded message; exactly the readings of its type are present.
#[derive(Debug, Clone, Copy)]
pub struct DecodedMessage {
    pub src_mac: [u8; 6],
    pub node_position: CarPosition,
    pub node_instance: u8,
    pub timestamp_us: u64,
    pub message_type: MessageType,
    pub imu: Option<ImuReadings>,
    pub gps: Option<GpsReadings>,
    pub magic: Option<u8>,
}

/// Why a message could not be decoded.
#[derive(Debug, Clone, PartialEq, Eq)]
pub enum ParserError {
    /// The COBS frame could not be decoded.
    Cobs(CobsError),
    /// Fewer than the 17 header bytes.
    TooShort,
    /// The type byte names no message type.
    InvalidMessageType(u8),
    /// The payload is shorter than its type requires.
    ParseError(String),
}

/// Formats a MAC address as `AA:BB:CC:DD:EE:FF`.
pub fn format_mac_address(mac: &[u8; 6]) -> (s: String)
    ensures
        s@ == mac_text(mac@),
{
    mac_to_text(mac)
}

/// Header size of a forwarded message.
pub const FORWARDED_HEADER_SIZE: usize = 17;

/// The IMU readings at offset `o` of `b`.
pub open spec fn imu_readings_at(b: Seq<u8>, o: int) -> ImuReadings {
    ImuReadings {
        accel_x_bits: spec_u32_from_le_bytes(b.subrange(o, o + 4)),
        accel_y_bits: spec_u32_from_le_bytes(b.subrange(o + 4, o + 8)),
        accel_z_bits: spec_u32_from_le_bytes(b.subrange(o + 8, o + 12)),
        gyro_x_bits: spec_u32_from_le_bytes(b.subrange(o + 12, o + 16)),
        gyro_y_bits: spec_u32_from_le_bytes(b.subrange(o + 16, o + 20)),
        gyro_z_bits: spec_u32_from_le_bytes(b.subrange(o + 20, o + 24)),
    }
}

/// The GPS readings at offset `o` of `b`.
pub open spec fn gps_readings_at(b: Seq<u8>, o: int) -> GpsReadings {
    GpsReadings {
        lat_bits: spec_u64_from_le_bytes(b.subrange(o, o + 8)),
        lon_bits: spec_u64_from_le_bytes(b.subrange(o + 8, o + 16)),
        alt_bits: spec_u32_from_le_bytes(b.subrange(o + 16, o + 20)),
        speed_kts_bits: spec_u32_from_le_bytes(b.subrange(o + 20, o + 24)),
        heading: spec_u16_from_le_bytes(b.subrange(o + 24, o + 26)),
        utc_time_year: spec_u16_from_le_bytes(b.subrange(o + 26, o + 28)),
        utc_time_month: b[o + 28],
        utc_time_day: b[o + 29],
        utc_time_hours: b[o + 30],
        utc_time_minutes: b[o + 31],
        utc_time_seconds: b[o + 32],
        utc_time_millis: spec_u16_from_le_bytes(b.subrange(o + 33, o + 35)),
    }
}

/// The message the header of `b` announces, with no readings yet.
pub open spec fn header_of(b: Seq<u8>) -> DecodedMessage {
    DecodedMessage {
        src_mac: [b[0], b[1], b[2], b[3], b[4], b[5]],
        node_position: position_of_code(b[6]),
        node_instance: b[7],
        timestamp_us: spec_u64_from_le_bytes(b.subrange(8, 16)),
        message_type: message_type_of_code(b[16]),
        imu: None,
        gps: None,
        magic: None,
    }
}

/// How decoding `b` fails, if it does: the error kind, the offending type byte,
/// or the message of a too-short payload.
pub enum DecodeFailure {
    TooShort,
    InvalidMessageType(u8),
    PayloadTooShort(Seq<char>),
}

/// What a COBS-decoded message reads as.
pub open spec fn decode_outcome(b: Seq<u8>) -> Result<DecodedMessage, DecodeFailure> {
    if b.len() < FORWARDED_HEADER_SIZE {
        Err(DecodeFailure::TooShort)
    } else {
        let h = header_of(b);
        let n = b.len() - FORWARDED_HEADER_SIZE;
        match h.message_type {
            MessageType::Imu => if n < 24 {
                Err(DecodeFailure::PayloadTooShort("IMU payload too short"@))
            } else {
                Ok(DecodedMessage { imu: Some(imu_readings_at(b, 17)), ..h })
            },
            MessageType::Gps => if n < 35 {
                Err(DecodeFailure::PayloadTooShort("GPS payload too short"@))
            } else {
                Ok(DecodedMessage { gps: Some(gps_readings_at(b, 17)), ..h })
            },
            MessageType::Heartbeat => if n < 1 {
                Err(DecodeFailure::PayloadTooShort("Heartbeat payload too short"@))
            } else {
                Ok(DecodedMessage { magic: Some(b[17]), ..h })
            },
            MessageType::TrackCaptureHeartbeat => Ok(h),
            MessageType::Unknown => Err(DecodeFailure::InvalidMessageType(b[16])),
        }
    }
}

/// Whether a parser error is the one a decode failure describes.
pub open spec fn error_matches(e: ParserError, f: DecodeFailure) -> bool {
    match f {
        DecodeFailure::TooShort => e == ParserError::TooShort,
        DecodeFailure::InvalidMessageType(v) => e == ParserError::InvalidMessageType(v),
        DecodeFailure::PayloadTooShort(text) => e matches ParserError::ParseError(s) && s@ == text,
    }
}

/// Decodes one COBS-decoded message from the bridge.
pub fn parse_message(buffer: &[u8]) -> (r: Result<DecodedMessage, ParserError>)
    ensures
        match (r, decode_outcome(buffer@)) {
            (Ok(m), Ok(d)) => m == d,
            (Err(e), Err(f)) => error_matches(e, f),
            _ => false,
        },
{
    if buffer.len() < FORWARDED_HEADER_SIZE {
        return Err(ParserError::TooShort);
    }
    let src_mac = [buffer[0], buffer[1], buffer[2], buffer[3], buffer[4], buffer[5]];
    let node_id = NodeId::from_bytes([buffer[6], buffer[7]]);
    let timestamp_us = get_u64_le(buffer, 8);
    let msg_type_byte = buffer[16];
    let message_type = MessageType::from_u8(msg_type_byte);
    let mut decoded = DecodedMessage {
        src_mac,
        node_position: node_id.position,
        node_instance: node_id.instance,
        timestamp_us,
        message_type,
        imu: None,
        gps: None,
        magic: None,
    };
    assert(decoded == header_of(buffer@));
    let n = buffer.len() - FORWARDED_HEADER_SIZE;
    match message_type {
        MessageType::Imu => {
            if n < 24 {
                let text = "IMU payload too short";
                proof { reveal_strlit("IMU payload too short"); }
                return Err(ParserError::ParseError(String::from_str(text)));
            }
            decoded.imu = Some(ImuReadings {
                accel_x_bits: get_u32_le(buffer, 17),
                accel_y_bits: get_u32_le(buffer, 21),
                accel_z_bits: get_u32_le(buffer, 25),
                gyro_x_bits: get_u32_le(buffer, 29),
                gyro_y_bits: get_u32_le(buffer, 33),
                gyro_z_bits: get_u32_le(buffer, 37),
            });
        },
        MessageType::Gps => {
            if n < 35 {
                let text = "GPS payload too short";
                proof { reveal_strlit("GPS payload too short"); }
                return Err(ParserError::ParseError(String::from_str(text)));
            }
            decoded.gps = Some(GpsReadings {
                lat_bits: get_u64_le(buffer, 17),
                lon_bits: get_u64_le(buffer, 25),
                alt_bits: get_u32_le(buffer, 33),
                speed_kts_bits: get_u32_le(buffer, 37),
                heading: get_u16_le(buffer, 41),
                utc_time_year: get_u16_le(buffer, 43),
                utc_time_month: buffer[45],
                utc_time_day: buffer[46],
                utc_time_hours: buffer[47],
                utc_time_minutes: buffer[48],
                utc_time_seconds: buffer[49],
                utc_time_millis: get_u16_le(buffer, 50),
            });
        },
        MessageType::Heartbeat => {
            if n < 1 {
                let text = "Heartbeat payload too short";
                proof { reveal_strlit("Heartbeat payload too short"); }
                return Err(ParserError::ParseError(String::from_str(text)));
            }
            decoded.magic = Some(buffer[17]);
        },
        MessageType::TrackCaptureHeartbeat => {},
        MessageType::Unknown => {
            return Err(ParserError::InvalidMessageType(msg_type_byte));
        },
    }
    Ok(decoded)
}

} // verus!
