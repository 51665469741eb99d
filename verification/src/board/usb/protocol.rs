//! Messages on the USB link. Bridge to host: `[MAC:6][NodeId:2][timestamp:8 LE]
//! [type:1][payload]`. Host to bridge: `[command:1][payload]`.

use vstd::prelude::*;
use vstd::bytes::{spec_u64_from_le_bytes, spec_u64_to_le_bytes};
use crate::wire::{
    append_bytes, append_u8, append_u16, append_u32, append_u64, get_u64_le, lemma_le_facts,
    lemma_splice_empty, spliced,
};
use crate::board::types::{node_id_bytes, NodeId};
use crate::board::aircomm::message::{message_type_code, payload_type, SensorPayload};
use crate::board::aircomm::protocol::{gps_payload_bytes, imu_payload_bytes};
use crate::text::{mac_text, mac_to_text};

verus! {

/// Header size: MAC (6), NodeId (2), timestamp (8), message type (1).
pub const HEADER_SIZE: usize = 17;

/// Maximum payload size (GPS is the largest at 35 bytes).
pub const MAX_PAYLOAD_SIZE: usize = 64;

/// Buffer size a forwarded message is built in.
pub const MAX_USB_MESSAGE_SIZE: usize = 81;

/// Errors that can occur while forwarding.
#[derive(Debug, Clone, Copy, PartialEq, Eq, Structural)]
pub enum ForwardError {
    /// Output buffer is too small.
    BufferTooSmall,
    /// Payload or command type cannot be handled.
    UnsupportedPayload,
}

/// Whether a payload is forwarded to the host: sensor data and heartbeats
/// are; the bridge's control messages (time synchronization, capture
/// request, track capture armed or ended) are handled on the radio side and
/// never go to the host.
pub open spec fn forwardable(p: SensorPayload) -> bool {
    p is Imu || p is Gps || p is Heartbeat
}

/// Payload bytes of a forwarded message: as on air, except that a heartbeat
/// carries only its magic byte.
pub open spec fn usb_payload_bytes(p: SensorPayload) -> Seq<u8> {
    match p {
        SensorPayload::Imu(d) => imu_payload_bytes(d),
        SensorPayload::Gps(d) => gps_payload_bytes(d),
        SensorPayload::Heartbeat(h) => seq![h.magic],
        _ => Seq::empty(),
    }
}

/// The bytes of a forwarded message.
pub open spec fn forwarded_bytes(src_mac: Seq<u8>, node_id: NodeId, timestamp_us: u64, p: SensorPayload) -> Seq<u8> {
    src_mac + node_id_bytes(node_id) + spec_u64_to_le_bytes(timestamp_us)
        + seq![message_type_code(payload_type(p))] + usb_payload_bytes(p)
}

/// A forwarded message from a six-byte MAC fits in `MAX_USB_MESSAGE_SIZE`.
pub proof fn lemma_forwarded_fits(src_mac: Seq<u8>, node_id: NodeId, timestamp_us: u64, p: SensorPayload)
    requires
        src_mac.len() == 6,
        forwardable(p),
    ensures
        forwarded_bytes(src_mac, node_id, timestamp_us, p).len() <= MAX_USB_MESSAGE_SIZE,
{
    lemma_le_facts();
}

/// Serializes a forwarded sensor message for the host into `buffer`, which must
/// hold `MAX_USB_MESSAGE_SIZE` bytes. Returns the number of bytes written; a
/// control message is refused as `UnsupportedPayload`, the buffer untouched.
pub fn serialize_forwarded_message(
    src_mac: &[u8; 6],
    node_id: &NodeId,
    timestamp_us: u64,
    payload: &SensorPayload,
    buffer: &mut [u8],
) -> (r: Result<usize, ForwardError>)
    ensures
        old(buffer)@.len() < MAX_USB_MESSAGE_SIZE ==> r == Err::<usize, ForwardError>(ForwardError::BufferTooSmall) && final(buffer)@ == old(buffer)@,
        old(buffer)@.len() >= MAX_USB_MESSAGE_SIZE && !forwardable(*payload) ==>
            r == Err::<usize, ForwardError>(ForwardError::UnsupportedPayload) && final(buffer)@ == old(buffer)@,
        old(buffer)@.len() >= MAX_USB_MESSAGE_SIZE && forwardable(*payload) ==> ({
            let f = forwarded_bytes(src_mac@, *node_id, timestamp_us, *payload);
            r == Ok::<usize, ForwardError>(f.len() as usize) && final(buffer)@ == spliced(old(buffer)@, 0, f)
        }),
{
    if buffer.len() < MAX_USB_MESSAGE_SIZE {
        return Err(ForwardError::BufferTooSmall);
    }
    match payload {
        SensorPayload::Imu(_) | SensorPayload::Gps(_) | SensorPayload::Heartbeat(_) => {},
        _ => return Err(ForwardError::UnsupportedPayload),
    }
    let ghost orig = buffer@;
    proof { lemma_le_facts(); lemma_splice_empty(orig); }
    append_bytes(buffer, 0, src_mac.as_slice(), Ghost(orig), Ghost(Seq::empty()));
    let ghost p = Seq::<u8>::empty() + src_mac@;
    let node_bytes = node_id.to_bytes();
    append_bytes(buffer, 6, node_bytes.as_slice(), Ghost(orig), Ghost(p));
    let ghost p = p + node_bytes@;
    append_u64(buffer, 8, timestamp_us, Ghost(orig), Ghost(p));
    let ghost p = p + spec_u64_to_le_bytes(timestamp_us);
    append_u8(buffer, 16, payload.message_type().to_u8(), Ghost(orig), Ghost(p));
    let ghost p = p + seq![message_type_code(payload_type(*payload))];
    let ghost h = p;
    assert(h =~= src_mac@ + node_id_bytes(*node_id) + spec_u64_to_le_bytes(timestamp_us) + seq![message_type_code(payload_type(*payload))]);
    match payload {
        SensorPayload::Imu(imu) => {
            append_u32(buffer, 17, imu.accel_x_bits, Ghost(orig), Ghost(p));
            let ghost p = p + vstd::bytes::spec_u32_to_le_bytes(imu.accel_x_bits);
            append_u32(buffer, 21, imu.accel_y_bits, Ghost(orig), Ghost(p));
            let ghost p = p + vstd::bytes::spec_u32_to_le_bytes(imu.accel_y_bits);
            append_u32(buffer, 25, imu.accel_z_bits, Ghost(orig), Ghost(p));
            let ghost p = p + vstd::bytes::spec_u32_to_le_bytes(imu.accel_z_bits);
            append_u32(buffer, 29, imu.gyro_x_bits, Ghost(orig), Ghost(p));
            let ghost p = p + vstd::bytes::spec_u32_to_le_bytes(imu.gyro_x_bits);
            append_u32(buffer, 33, imu.gyro_y_bits, Ghost(orig), Ghost(p));
            let ghost p = p + vstd::bytes::spec_u32_to_le_bytes(imu.gyro_y_bits);
            append_u32(buffer, 37, imu.gyro_z_bits, Ghost(orig), Ghost(p));
            let ghost p = p + vstd::bytes::spec_u32_to_le_bytes(imu.gyro_z_bits);
            assert(p =~= forwarded_bytes(src_mac@, *node_id, timestamp_us, *payload));
            Ok(41)
        },
        SensorPayload::Gps(gps) => {
            append_u64(buffer, 17, gps.lat_bits, Ghost(orig), Ghost(p));
            let ghost p = p + spec_u64_to_le_bytes(gps.lat_bits);
            append_u64(buffer, 25, gps.lon_bits, Ghost(orig), Ghost(p));
            let ghost p = p + spec_u64_to_le_bytes(gps.lon_bits);
            append_u32(buffer, 33, gps.alt_bits, Ghost(orig), Ghost(p));
            let ghost p = p + vstd::bytes::spec_u32_to_le_bytes(gps.alt_bits);
            append_u32(buffer, 37, gps.speed_kts_bits, Ghost(orig), Ghost(p));
            let ghost p = p + vstd::bytes::spec_u32_to_le_bytes(gps.speed_kts_bits);
            append_u16(buffer, 41, gps.heading, Ghost(orig), Ghost(p));
            let ghost p = p + vstd::bytes::spec_u16_to_le_bytes(gps.heading);
            append_u16(buffer, 43, gps.utc_time.year, Ghost(orig), Ghost(p));
            let ghost p = p + vstd::bytes::spec_u16_to_le_bytes(gps.utc_time.year);
            append_u8(buffer, 45, gps.utc_time.month, Ghost(orig), Ghost(p));
            let ghost p = p + seq![gps.utc_time.month];
            append_u8(buffer, 46, gps.utc_time.day, Ghost(orig), Ghost(p));
            let ghost p = p + seq![gps.utc_time.day];
            append_u8(buffer, 47, gps.utc_time.hours, Ghost(orig), Ghost(p));
            let ghost p = p + seq![gps.utc_time.hours];
            append_u8(buffer, 48, gps.utc_time.minutes, Ghost(orig), Ghost(p));
            let ghost p = p + seq![gps.utc_time.minutes];
            append_u8(buffer, 49, gps.utc_time.seconds, Ghost(orig), Ghost(p));
            let ghost p = p + seq![gps.utc_time.seconds];
            append_u16(buffer, 50, gps.utc_time.millis, Ghost(orig), Ghost(p));
            let ghost p = p + vstd::bytes::spec_u16_to_le_bytes(gps.utc_time.millis);
            assert(p =~= forwarded_bytes(src_mac@, *node_id, timestamp_us, *payload));
            Ok(52)
        },
        SensorPayload::Heartbeat(hb) => {
            append_u8(buffer, 17, hb.magic, Ghost(orig), Ghost(p));
            let ghost p = p + seq![hb.magic];
            assert(p =~= forwarded_bytes(src_mac@, *node_id, timestamp_us, *payload));
            Ok(18)
        },
        _ => Err(ForwardError::UnsupportedPayload),
    }
}

/// Formats a MAC address for logging as `AA:BB:CC:DD:EE:FF`.
pub fn format_mac(mac: &[u8; 6]) -> (s: String)
    ensures
        s@ == mac_text(mac@),
{
    mac_to_text(mac)
}

/// Command byte: time synchronization (followed by the session time, 8 bytes LE).
pub const CMD_TIME_SYNC: u8 = 0x01;
/// Command byte: request a floating GPS capture.
pub const CMD_REQUEST_FLOATING_GPS: u8 = 0x02;
/// Command byte: track capture armed.
pub const CMD_ARM_TRACK: u8 = 0x03;
/// Command byte: track capture ended.
pub const CMD_END_TRACK: u8 = 0x04;
/// Command byte: a capture succeeded.
pub const CMD_CAPTURE_SUCCESS: u8 = 0x05;
/// Command byte: a capture timed out.
pub const CMD_CAPTURE_TIMEOUT: u8 = 0x06;

/// A command from the host.
#[derive(Debug, Clone, Copy, PartialEq, Eq, Structural)]
pub enum UsbCommand {
    /// The host's session-elapsed time in microseconds.
    TimeSync { session_time_us: u64 },
    /// Collect GPS samples from the floating node.
    RequestFloatingGps,
    /// Track capture was armed on the host.
    ArmTrack,
    /// Track capture was ended on the host.
    EndTrack,
    /// The host recorded a capture.
    CaptureSuccess,
    /// The host gave up waiting for a capture.
    CaptureTimeout,
}

/// What a decoded command buffer reads as.
pub open spec fn usb_command_of(b: Seq<u8>) -> Result<UsbCommand, ForwardError> {
    if b.len() == 0 {
        Err(ForwardError::BufferTooSmall)
    } else if b[0] == CMD_TIME_SYNC {
        if b.len() < 9 {
            Err(ForwardError::BufferTooSmall)
        } else {
            Ok(UsbCommand::TimeSync { session_time_us: spec_u64_from_le_bytes(b.subrange(1, 9)) })
        }
    } else if b[0] == CMD_REQUEST_FLOATING_GPS {
        Ok(UsbCommand::RequestFloatingGps)
    } else if b[0] == CMD_ARM_TRACK {
        Ok(UsbCommand::ArmTrack)
    } else if b[0] == CMD_END_TRACK {
        Ok(UsbCommand::EndTrack)
    } else if b[0] == CMD_CAPTURE_SUCCESS {
        Ok(UsbCommand::CaptureSuccess)
    } else if b[0] == CMD_CAPTURE_TIMEOUT {
        Ok(UsbCommand::CaptureTimeout)
    } else {
        Err(ForwardError::UnsupportedPayload)
    }
}

/// Parses a COBS-decoded command buffer.
pub fn parse_usb_command(buffer: &[u8]) -> (r: Result<UsbCommand, ForwardError>)
    ensures
        r == usb_command_of(buffer@),
{
    if buffer.len() == 0 {
        return Err(ForwardError::BufferTooSmall);
    }
    match buffer[0] {
        CMD_TIME_SYNC => {
            if buffer.len() < 9 {
                return Err(ForwardError::BufferTooSmall);
            }
            let session_time_us = get_u64_le(buffer, 1);
            Ok(UsbCommand::TimeSync { session_time_us })
        },
        CMD_REQUEST_FLOATING_GPS => Ok(UsbCommand::RequestFloatingGps),
        CMD_ARM_TRACK => Ok(UsbCommand::ArmTrack),
        CMD_END_TRACK => Ok(UsbCommand::EndTrack),
        CMD_CAPTURE_SUCCESS => Ok(UsbCommand::CaptureSuccess),
        CMD_CAPTURE_TIMEOUT => Ok(UsbCommand::CaptureTimeout),
        _ => Err(ForwardError::UnsupportedPayload),
    }
}

} // verus!
