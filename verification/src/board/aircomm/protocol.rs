//! Wire format of air messages: `[type:1][timestamp_us:8 LE][payload]`.

use vstd::prelude::*;
use vstd::bytes::{
    spec_u16_from_le_bytes, spec_u16_to_le_bytes, spec_u32_from_le_bytes, spec_u32_to_le_bytes,
    spec_u64_from_le_bytes, spec_u64_to_le_bytes,
};
use crate::wire::{
    append_u16, append_u32, append_u64, append_u8, get_u16_le, get_u32_le, get_u64_le,
    lemma_le_facts, lemma_splice_empty, spliced,
};
use crate::board::types::{
    node_id_bytes, node_id_of_bytes, position_code, GpsData, GpsTime, ImuData, NodeId,
    lemma_position_code_round_trip,
};
use super::error::AirCommError;
use super::message::{
    message_type_code, message_type_of_code, payload_type, HeartbeatData, MessageType, SensorMessage,
    SensorPayload, TimeSyncData, GPS_SERIALIZED_SIZE, HEARTBEAT_SERIALIZED_SIZE, IMU_SERIALIZED_SIZE,
    TIMESYNC_SERIALIZED_SIZE,
};

verus! {

/// Maximum payload size of one ESP-NOW transmission.
pub const MAX_PAYLOAD_SIZE: usize = 250;

/// Header size: message type (1) and timestamp (8).
pub const HEADER_SIZE: usize = 9;

/// Header bytes of a message.
pub open spec fn header_bytes(t: MessageType, timestamp_us: u64) -> Seq<u8> {
    seq![message_type_code(t)] + spec_u64_to_le_bytes(timestamp_us)
}

/// IMU payload bytes: the six readings in order, little-endian.
pub open spec fn imu_payload_bytes(d: ImuData) -> Seq<u8> {
    spec_u32_to_le_bytes(d.accel_x_bits) + spec_u32_to_le_bytes(d.accel_y_bits)
        + spec_u32_to_le_bytes(d.accel_z_bits) + spec_u32_to_le_bytes(d.gyro_x_bits)
        + spec_u32_to_le_bytes(d.gyro_y_bits) + spec_u32_to_le_bytes(d.gyro_z_bits)
}

/// GPS time bytes: year, month, day, hours, minutes, seconds, millis.
pub open spec fn gps_time_bytes(t: GpsTime) -> Seq<u8> {
    spec_u16_to_le_bytes(t.year) + seq![t.month, t.day, t.hours, t.minutes, t.seconds]
        + spec_u16_to_le_bytes(t.millis)
}

/// GPS payload bytes: lat, lon, alt, speed, heading, then the time.
pub open spec fn gps_payload_bytes(d: GpsData) -> Seq<u8> {
    spec_u64_to_le_bytes(d.lat_bits) + spec_u64_to_le_bytes(d.lon_bits)
        + spec_u32_to_le_bytes(d.alt_bits) + spec_u32_to_le_bytes(d.speed_kts_bits)
        + spec_u16_to_le_bytes(d.heading) + gps_time_bytes(d.utc_time)
}

/// Heartbeat payload bytes: magic, then the node identifier.
pub open spec fn heartbeat_payload_bytes(h: HeartbeatData) -> Seq<u8> {
    seq![h.magic] + node_id_bytes(h.node_id)
}

/// Payload bytes of any payload; the control messages without data have
/// none.
pub open spec fn payload_bytes(p: SensorPayload) -> Seq<u8> {
    match p {
        SensorPayload::Imu(d) => imu_payload_bytes(d),
        SensorPayload::Gps(d) => gps_payload_bytes(d),
        SensorPayload::Heartbeat(h) => heartbeat_payload_bytes(h),
        SensorPayload::TimeSync(d) => spec_u64_to_le_bytes(d.session_time_us),
        _ => Seq::empty(),
    }
}

/// The complete air frame of a payload sent at `timestamp_us`.
pub open spec fn air_frame(timestamp_us: u64, p: SensorPayload) -> Seq<u8> {
    header_bytes(payload_type(p), timestamp_us) + payload_bytes(p)
}

/// Serializes a heartbeat: `[0xFF][timestamp:8][magic][position][instance]`.
/// Returns the number of bytes written, or `BufferTooSmall` (buffer untouched)
/// when the buffer holds fewer than 12 bytes.
pub fn serialize_heartbeat(timestamp_us: u64, data: &HeartbeatData, buffer: &mut [u8]) -> (r: Result<usize, AirCommError>)
    ensures
        old(buffer)@.len() < HEADER_SIZE + HEARTBEAT_SERIALIZED_SIZE ==> r == Err::<usize, AirCommError>(AirCommError::BufferTooSmall) && final(buffer)@ == old(buffer)@,
        old(buffer)@.len() >= HEADER_SIZE + HEARTBEAT_SERIALIZED_SIZE ==> r == Ok::<usize, AirCommError>((HEADER_SIZE + HEARTBEAT_SERIALIZED_SIZE) as usize)
            && final(buffer)@ == spliced(old(buffer)@, 0, air_frame(timestamp_us, SensorPayload::Heartbeat(*data))),
{
    if buffer.len() < HEADER_SIZE + HEARTBEAT_SERIALIZED_SIZE {
        return Err(AirCommError::BufferTooSmall);
    }
    let ghost orig = buffer@;
    proof { lemma_le_facts(); lemma_splice_empty(orig); }
    let node_id_bytes = data.node_id.to_bytes();
    append_u8(buffer, 0, MessageType::Heartbeat.to_u8(), Ghost(orig), Ghost(Seq::empty()));
    let ghost p1 = Seq::<u8>::empty() + seq![0xFFu8];
    append_u64(buffer, 1, timestamp_us, Ghost(orig), Ghost(p1));
    let ghost p2 = p1 + spec_u64_to_le_bytes(timestamp_us);
    append_u8(buffer, 9, data.magic, Ghost(orig), Ghost(p2));
    let ghost p3 = p2 + seq![data.magic];
    append_u8(buffer, 10, node_id_bytes[0], Ghost(orig), Ghost(p3));
    let ghost p4 = p3 + seq![node_id_bytes@[0]];
    append_u8(buffer, 11, node_id_bytes[1], Ghost(orig), Ghost(p4));
    assert(p4 + seq![node_id_bytes@[1]] =~= air_frame(timestamp_us, SensorPayload::Heartbeat(*data)));
    Ok(12)
}

/// Serializes a time synchronization: `[0x03][timestamp:8][session_time_us:8]`.
/// Returns the number of bytes written, or `BufferTooSmall` (buffer
/// untouched) when the buffer holds fewer than 17 bytes.
pub fn serialize_timesync(timestamp_us: u64, data: &TimeSyncData, buffer: &mut [u8]) -> (r: Result<usize, AirCommError>)
    ensures
        old(buffer)@.len() < HEADER_SIZE + TIMESYNC_SERIALIZED_SIZE ==> r == Err::<usize, AirCommError>(AirCommError::BufferTooSmall) && final(buffer)@ == old(buffer)@,
        old(buffer)@.len() >= HEADER_SIZE + TIMESYNC_SERIALIZED_SIZE ==> r == Ok::<usize, AirCommError>((HEADER_SIZE + TIMESYNC_SERIALIZED_SIZE) as usize)
            && final(buffer)@ == spliced(old(buffer)@, 0, air_frame(timestamp_us, SensorPayload::TimeSync(*data))),
{
    if buffer.len() < HEADER_SIZE + TIMESYNC_SERIALIZED_SIZE {
        return Err(AirCommError::BufferTooSmall);
    }
    let ghost orig = buffer@;
    proof { lemma_le_facts(); lemma_splice_empty(orig); }
    append_u8(buffer, 0, MessageType::TimeSync.to_u8(), Ghost(orig), Ghost(Seq::empty()));
    let ghost p = Seq::<u8>::empty() + seq![0x03u8];
    append_u64(buffer, 1, timestamp_us, Ghost(orig), Ghost(p));
    let ghost p = p + spec_u64_to_le_bytes(timestamp_us);
    append_u64(buffer, 9, data.session_time_us, Ghost(orig), Ghost(p));
    let ghost p = p + spec_u64_to_le_bytes(data.session_time_us);
    assert(p =~= air_frame(timestamp_us, SensorPayload::TimeSync(*data)));
    Ok(17)
}

/// Writes the header of a control message without payload.
fn serialize_header_only(t: MessageType, timestamp_us: u64, buffer: &mut [u8]) -> (r: Result<usize, AirCommError>)
    ensures
        old(buffer)@.len() < HEADER_SIZE ==> r == Err::<usize, AirCommError>(AirCommError::BufferTooSmall) && final(buffer)@ == old(buffer)@,
        old(buffer)@.len() >= HEADER_SIZE ==> r == Ok::<usize, AirCommError>(HEADER_SIZE)
            && final(buffer)@ == spliced(old(buffer)@, 0, header_bytes(t, timestamp_us)),
{
    if buffer.len() < HEADER_SIZE {
        return Err(AirCommError::BufferTooSmall);
    }
    let ghost orig = buffer@;
    proof { lemma_le_facts(); lemma_splice_empty(orig); }
    append_u8(buffer, 0, t.to_u8(), Ghost(orig), Ghost(Seq::empty()));
    let ghost p = Seq::<u8>::empty() + seq![message_type_code(t)];
    append_u64(buffer, 1, timestamp_us, Ghost(orig), Ghost(p));
    let ghost p = p + spec_u64_to_le_bytes(timestamp_us);
    assert(p =~= header_bytes(t, timestamp_us));
    Ok(HEADER_SIZE)
}

/// Serializes a request for GPS samples: the 9-byte header `[0x04][timestamp:8]`.
/// Returns the number of bytes written, or `BufferTooSmall` (buffer
/// untouched) when the buffer holds fewer than 9 bytes.
pub fn serialize_request_gps_capture(timestamp_us: u64, buffer: &mut [u8]) -> (r: Result<usize, AirCommError>)
    ensures
        old(buffer)@.len() < HEADER_SIZE ==> r == Err::<usize, AirCommError>(AirCommError::BufferTooSmall) && final(buffer)@ == old(buffer)@,
        old(buffer)@.len() >= HEADER_SIZE ==> r == Ok::<usize, AirCommError>(HEADER_SIZE)
            && final(buffer)@ == spliced(old(buffer)@, 0, air_frame(timestamp_us, SensorPayload::RequestGpsCapture)),
{
    proof { assert(air_frame(timestamp_us, SensorPayload::RequestGpsCapture) =~= header_bytes(MessageType::RequestGpsCapture, timestamp_us)); }
    serialize_header_only(MessageType::RequestGpsCapture, timestamp_us, buffer)
}

/// Serializes a track-capture-armed notice: the 9-byte header `[0x05][timestamp:8]`.
pub fn serialize_track_capture_armed(timestamp_us: u64, buffer: &mut [u8]) -> (r: Result<usize, AirCommError>)
    ensures
        old(buffer)@.len() < HEADER_SIZE ==> r == Err::<usize, AirCommError>(AirCommError::BufferTooSmall) && final(buffer)@ == old(buffer)@,
        old(buffer)@.len() >= HEADER_SIZE ==> r == Ok::<usize, AirCommError>(HEADER_SIZE)
            && final(buffer)@ == spliced(old(buffer)@, 0, air_frame(timestamp_us, SensorPayload::TrackCaptureArmed)),
{
    proof { assert(air_frame(timestamp_us, SensorPayload::TrackCaptureArmed) =~= header_bytes(MessageType::TrackCaptureArmed, timestamp_us)); }
    serialize_header_only(MessageType::TrackCaptureArmed, timestamp_us, buffer)
}

/// Serializes a track-capture-ended notice: the 9-byte header `[0x06][timestamp:8]`.
pub fn serialize_track_capture_ended(timestamp_us: u64, buffer: &mut [u8]) -> (r: Result<usize, AirCommError>)
    ensures
        old(buffer)@.len() < HEADER_SIZE ==> r == Err::<usize, AirCommError>(AirCommError::BufferTooSmall) && final(buffer)@ == old(buffer)@,
        old(buffer)@.len() >= HEADER_SIZE ==> r == Ok::<usize, AirCommError>(HEADER_SIZE)
            && final(buffer)@ == spliced(old(buffer)@, 0, air_frame(timestamp_us, SensorPayload::TrackCaptureEnded)),
{
    proof { assert(air_frame(timestamp_us, SensorPayload::TrackCaptureEnded) =~= header_bytes(MessageType::TrackCaptureEnded, timestamp_us)); }
    serialize_header_only(MessageType::TrackCaptureEnded, timestamp_us, buffer)
}

/// Serializes an IMU sample: `[0x01][timestamp:8][accel x,y,z][gyro x,y,z]`,
/// each reading four bytes little-endian. Returns the number of bytes written,
/// or `BufferTooSmall` (buffer untouched) when the buffer holds fewer than 33 bytes.
pub fn serialize_imu(timestamp_us: u64, data: &ImuData, buffer: &mut [u8]) -> (r: Result<usize, AirCommError>)
    ensures
        old(buffer)@.len() < HEADER_SIZE + IMU_SERIALIZED_SIZE ==> r == Err::<usize, AirCommError>(AirCommError::BufferTooSmall) && final(buffer)@ == old(buffer)@,
        old(buffer)@.len() >= HEADER_SIZE + IMU_SERIALIZED_SIZE ==> r == Ok::<usize, AirCommError>((HEADER_SIZE + IMU_SERIALIZED_SIZE) as usize)
            && final(buffer)@ == spliced(old(buffer)@, 0, air_frame(timestamp_us, SensorPayload::Imu(*data))),
{
    if buffer.len() < HEADER_SIZE + IMU_SERIALIZED_SIZE {
        return Err(AirCommError::BufferTooSmall);
    }
    let ghost orig = buffer@;
    proof { lemma_le_facts(); lemma_splice_empty(orig); }
    append_u8(buffer, 0, MessageType::Imu.to_u8(), Ghost(orig), Ghost(Seq::empty()));
    let ghost p = Seq::<u8>::empty() + seq![0x01u8];
    append_u64(buffer, 1, timestamp_us, Ghost(orig), Ghost(p));
    let ghost p = p + spec_u64_to_le_bytes(timestamp_us);
    append_u32(buffer, 9, data.accel_x_bits, Ghost(orig), Ghost(p));
    let ghost p = p + spec_u32_to_le_bytes(data.accel_x_bits);
    append_u32(buffer, 13, data.accel_y_bits, Ghost(orig), Ghost(p));
    let ghost p = p + spec_u32_to_le_bytes(data.accel_y_bits);
    append_u32(buffer, 17, data.accel_z_bits, Ghost(orig), Ghost(p));
    let ghost p = p + spec_u32_to_le_bytes(data.accel_z_bits);
    append_u32(buffer, 21, data.gyro_x_bits, Ghost(orig), Ghost(p));
    let ghost p = p + spec_u32_to_le_bytes(data.gyro_x_bits);
    append_u32(buffer, 25, data.gyro_y_bits, Ghost(orig), Ghost(p));
    let ghost p = p + spec_u32_to_le_bytes(data.gyro_y_bits);
    append_u32(buffer, 29, data.gyro_z_bits, Ghost(orig), Ghost(p));
    let ghost p = p + spec_u32_to_le_bytes(data.gyro_z_bits);
    assert(p =~= air_frame(timestamp_us, SensorPayload::Imu(*data)));
    Ok(33)
}

/// Serializes a GPS fix: `[0x02][timestamp:8][lat:8][lon:8][alt:4][speed:4]
/// [heading:2][year:2][month][day][hours][minutes][seconds][millis:2]`.
/// Returns the number of bytes written, or `BufferTooSmall` (buffer untouched)
/// when the buffer holds fewer than 44 bytes.
pub fn serialize_gps(timestamp_us: u64, data: &GpsData, buffer: &mut [u8]) -> (r: Result<usize, AirCommError>)
    ensures
        old(buffer)@.len() < HEADER_SIZE + GPS_SERIALIZED_SIZE ==> r == Err::<usize, AirCommError>(AirCommError::BufferTooSmall) && final(buffer)@ == old(buffer)@,
        old(buffer)@.len() >= HEADER_SIZE + GPS_SERIALIZED_SIZE ==> r == Ok::<usize, AirCommError>((HEADER_SIZE + GPS_SERIALIZED_SIZE) as usize)
            && final(buffer)@ == spliced(old(buffer)@, 0, air_frame(timestamp_us, SensorPayload::Gps(*data))),
{
    if buffer.len() < HEADER_SIZE + GPS_SERIALIZED_SIZE {
        return Err(AirCommError::BufferTooSmall);
    }
    let ghost orig = buffer@;
    proof { lemma_le_facts(); lemma_splice_empty(orig); }
    append_u8(buffer, 0, MessageType::Gps.to_u8(), Ghost(orig), Ghost(Seq::empty()));
    let ghost p = Seq::<u8>::empty() + seq![0x02u8];
    append_u64(buffer, 1, timestamp_us, Ghost(orig), Ghost(p));
    let ghost p = p + spec_u64_to_le_bytes(timestamp_us);
    let ghost h = p;
    append_u64(buffer, 9, data.lat_bits, Ghost(orig), Ghost(p));
    let ghost p = p + spec_u64_to_le_bytes(data.lat_bits);
    append_u64(buffer, 17, data.lon_bits, Ghost(orig), Ghost(p));
    let ghost p = p + spec_u64_to_le_bytes(data.lon_bits);
    append_u32(buffer, 25, data.alt_bits, Ghost(orig), Ghost(p));
    let ghost p = p + spec_u32_to_le_bytes(data.alt_bits);
    append_u32(buffer, 29, data.speed_kts_bits, Ghost(orig), Ghost(p));
    let ghost p = p + spec_u32_to_le_bytes(data.speed_kts_bits);
    append_u16(buffer, 33, data.heading, Ghost(orig), Ghost(p));
    let ghost p = p + spec_u16_to_le_bytes(data.heading);
    let ghost q = p;
    append_u16(buffer, 35, data.utc_time.year, Ghost(orig), Ghost(p));
    let ghost p = p + spec_u16_to_le_bytes(data.utc_time.year);
    append_u8(buffer, 37, data.utc_time.month, Ghost(orig), Ghost(p));
    let ghost p = p + seq![data.utc_time.month];
    append_u8(buffer, 38, data.utc_time.day, Ghost(orig), Ghost(p));
    let ghost p = p + seq![data.utc_time.day];
    append_u8(buffer, 39, data.utc_time.hours, Ghost(orig), Ghost(p));
    let ghost p = p + seq![data.utc_time.hours];
    append_u8(buffer, 40, data.utc_time.minutes, Ghost(orig), Ghost(p));
    let ghost p = p + seq![data.utc_time.minutes];
    append_u8(buffer, 41, data.utc_time.seconds, Ghost(orig), Ghost(p));
    let ghost p = p + seq![data.utc_time.seconds];
    append_u16(buffer, 42, data.utc_time.millis, Ghost(orig), Ghost(p));
    let ghost p = p + spec_u16_to_le_bytes(data.utc_time.millis);
    assert(p =~= q + gps_time_bytes(data.utc_time));
    assert(p =~= air_frame(timestamp_us, SensorPayload::Gps(*data)));
    Ok(44)
}

/// The IMU sample stored from offset `off` of `s`.
pub open spec fn imu_of_bytes(s: Seq<u8>, off: int) -> ImuData {
    ImuData {
        accel_x_bits: spec_u32_from_le_bytes(s.subrange(off, off + 4)),
        accel_y_bits: spec_u32_from_le_bytes(s.subrange(off + 4, off + 8)),
        accel_z_bits: spec_u32_from_le_bytes(s.subrange(off + 8, off + 12)),
        gyro_x_bits: spec_u32_from_le_bytes(s.subrange(off + 12, off + 16)),
        gyro_y_bits: spec_u32_from_le_bytes(s.subrange(off + 16, off + 20)),
        gyro_z_bits: spec_u32_from_le_bytes(s.subrange(off + 20, off + 24)),
    }
}

/// The GPS time stored from offset `off` of `s`.
pub open spec fn gps_time_of_bytes(s: Seq<u8>, off: int) -> GpsTime {
    GpsTime {
        year: spec_u16_from_le_bytes(s.subrange(off, off + 2)),
        month: s[off + 2],
        day: s[off + 3],
        hours: s[off + 4],
        minutes: s[off + 5],
        seconds: s[off + 6],
        millis: spec_u16_from_le_bytes(s.subrange(off + 7, off + 9)),
    }
}

/// The GPS fix stored from offset `off` of `s`.
pub open spec fn gps_of_bytes(s: Seq<u8>, off: int) -> GpsData {
    GpsData {
        lat_bits: spec_u64_from_le_bytes(s.subrange(off, off + 8)),
        lon_bits: spec_u64_from_le_bytes(s.subrange(off + 8, off + 16)),
        alt_bits: spec_u32_from_le_bytes(s.subrange(off + 16, off + 20)),
        speed_kts_bits: spec_u32_from_le_bytes(s.subrange(off + 20, off + 24)),
        heading: spec_u16_from_le_bytes(s.subrange(off + 24, off + 26)),
        utc_time: gps_time_of_bytes(s, off + 26),
    }
}

/// The heartbeat stored from offset `off` of `s`.
pub open spec fn heartbeat_of_bytes(s: Seq<u8>, off: int) -> HeartbeatData {
    HeartbeatData { magic: s[off], node_id: node_id_of_bytes(s[off + 1], s[off + 2]) }
}

/// Payload size of a message type.
pub open spec fn payload_size(t: MessageType) -> int {
    match t {
        MessageType::Imu => IMU_SERIALIZED_SIZE as int,
        MessageType::Gps => GPS_SERIALIZED_SIZE as int,
        MessageType::Heartbeat => HEARTBEAT_SERIALIZED_SIZE as int,
        MessageType::TimeSync => TIMESYNC_SERIALIZED_SIZE as int,
        _ => 0,
    }
}

/// The payload of type `t` stored from offset `off` of `s`.
pub open spec fn payload_of_bytes(t: MessageType, s: Seq<u8>, off: int) -> SensorPayload {
    match t {
        MessageType::Imu => SensorPayload::Imu(imu_of_bytes(s, off)),
        MessageType::Gps => SensorPayload::Gps(gps_of_bytes(s, off)),
        MessageType::Heartbeat => SensorPayload::Heartbeat(heartbeat_of_bytes(s, off)),
        MessageType::TimeSync => SensorPayload::TimeSync(TimeSyncData {
            session_time_us: spec_u64_from_le_bytes(s.subrange(off, off + 8)),
        }),
        MessageType::RequestGpsCapture => SensorPayload::RequestGpsCapture,
        MessageType::TrackCaptureArmed => SensorPayload::TrackCaptureArmed,
        MessageType::TrackCaptureEnded => SensorPayload::TrackCaptureEnded,
    }
}

/// What a received air frame reads as: too short for a header, or for the
/// payload its type announces, is an invalid message; an unknown type byte is
/// reported as such; bytes after the payload are ignored.
pub open spec fn air_message_of(data: Seq<u8>, src_address: [u8; 6]) -> Result<SensorMessage, AirCommError> {
    if data.len() < HEADER_SIZE {
        Err(AirCommError::InvalidMessage)
    } else {
        match message_type_of_code(data[0]) {
            None => Err(AirCommError::UnknownMessageType),
            Some(t) => if data.len() < HEADER_SIZE + payload_size(t) {
                Err(AirCommError::InvalidMessage)
            } else {
                Ok(SensorMessage {
                    src_address,
                    timestamp_us: spec_u64_from_le_bytes(data.subrange(1, 9)),
                    payload: payload_of_bytes(t, data, HEADER_SIZE as int),
                })
            },
        }
    }
}

/// Deserializes a received frame into a sensor message from `src_address`.
pub fn deserialize(data: &[u8], src_address: [u8; 6]) -> (r: Result<SensorMessage, AirCommError>)
    ensures
        r == air_message_of(data@, src_address),
{
    if data.len() < HEADER_SIZE {
        return Err(AirCommError::InvalidMessage);
    }
    let msg_type = match MessageType::from_u8(data[0]) {
        Some(t) => t,
        None => return Err(AirCommError::UnknownMessageType),
    };
    let timestamp_us = get_u64_le(data, 1);
    let payload_offset: usize = 9;
    let payload = match msg_type {
        MessageType::Imu => deserialize_imu(data, payload_offset)?,
        MessageType::Gps => deserialize_gps(data, payload_offset)?,
        MessageType::Heartbeat => deserialize_heartbeat(data, payload_offset)?,
        MessageType::TimeSync => deserialize_timesync(data, payload_offset)?,
        MessageType::RequestGpsCapture => SensorPayload::RequestGpsCapture,
        MessageType::TrackCaptureArmed => SensorPayload::TrackCaptureArmed,
        MessageType::TrackCaptureEnded => SensorPayload::TrackCaptureEnded,
    };
    Ok(SensorMessage { src_address, timestamp_us, payload })
}

/// Reads the IMU payload at `payload_offset`.
fn deserialize_imu(data: &[u8], payload_offset: usize) -> (r: Result<SensorPayload, AirCommError>)
    requires
        payload_offset == HEADER_SIZE,
    ensures
        data@.len() < HEADER_SIZE + IMU_SERIALIZED_SIZE ==> r == Err::<SensorPayload, AirCommError>(AirCommError::InvalidMessage),
        data@.len() >= HEADER_SIZE + IMU_SERIALIZED_SIZE ==> r == Ok::<SensorPayload, AirCommError>(payload_of_bytes(MessageType::Imu, data@, HEADER_SIZE as int)),
{
    if data.len() < HEADER_SIZE + IMU_SERIALIZED_SIZE {
        return Err(AirCommError::InvalidMessage);
    }
    let off = payload_offset;
    let accel_x_bits = get_u32_le(data, off);
    let accel_y_bits = get_u32_le(data, off + 4);
    let accel_z_bits = get_u32_le(data, off + 8);
    let gyro_x_bits = get_u32_le(data, off + 12);
    let gyro_y_bits = get_u32_le(data, off + 16);
    let gyro_z_bits = get_u32_le(data, off + 20);
    Ok(SensorPayload::Imu(ImuData { accel_x_bits, accel_y_bits, accel_z_bits, gyro_x_bits, gyro_y_bits, gyro_z_bits }))
}

/// Reads the GPS payload at `payload_offset`.
fn deserialize_gps(data: &[u8], payload_offset: usize) -> (r: Result<SensorPayload, AirCommError>)
    requires
        payload_offset == HEADER_SIZE,
    ensures
        data@.len() < HEADER_SIZE + GPS_SERIALIZED_SIZE ==> r == Err::<SensorPayload, AirCommError>(AirCommError::InvalidMessage),
        data@.len() >= HEADER_SIZE + GPS_SERIALIZED_SIZE ==> r == Ok::<SensorPayload, AirCommError>(payload_of_bytes(MessageType::Gps, data@, HEADER_SIZE as int)),
{
    if data.len() < HEADER_SIZE + GPS_SERIALIZED_SIZE {
        return Err(AirCommError::InvalidMessage);
    }
    let off = payload_offset;
    let lat_bits = get_u64_le(data, off);
    let lon_bits = get_u64_le(data, off + 8);
    let alt_bits = get_u32_le(data, off + 16);
    let speed_kts_bits = get_u32_le(data, off + 20);
    let heading = get_u16_le(data, off + 24);
    let year = get_u16_le(data, off + 26);
    let month = data[off + 28];
    let day = data[off + 29];
    let hours = data[off + 30];
    let minutes = data[off + 31];
    let seconds = data[off + 32];
    let millis = get_u16_le(data, off + 33);
    Ok(SensorPayload::Gps(GpsData {
        lat_bits,
        lon_bits,
        alt_bits,
        speed_kts_bits,
        heading,
        utc_time: GpsTime { year, month, day, hours, minutes, seconds, millis },
    }))
}

/// Reads the heartbeat payload at `payload_offset`.
fn deserialize_heartbeat(data: &[u8], payload_offset: usize) -> (r: Result<SensorPayload, AirCommError>)
    requires
        payload_offset == HEADER_SIZE,
    ensures
        data@.len() < HEADER_SIZE + HEARTBEAT_SERIALIZED_SIZE ==> r == Err::<SensorPayload, AirCommError>(AirCommError::InvalidMessage),
        data@.len() >= HEADER_SIZE + HEARTBEAT_SERIALIZED_SIZE ==> r == Ok::<SensorPayload, AirCommError>(payload_of_bytes(MessageType::Heartbeat, data@, HEADER_SIZE as int)),
{
    if data.len() < HEADER_SIZE + HEARTBEAT_SERIALIZED_SIZE {
        return Err(AirCommError::InvalidMessage);
    }
    let magic = data[payload_offset];
    let node_id = NodeId::from_bytes([data[payload_offset + 1], data[payload_offset + 2]]);
    Ok(SensorPayload::Heartbeat(HeartbeatData { magic, node_id }))
}

/// Reads the time synchronization payload at `payload_offset`.
fn deserialize_timesync(data: &[u8], payload_offset: usize) -> (r: Result<SensorPayload, AirCommError>)
    requires
        payload_offset == HEADER_SIZE,
    ensures
        data@.len() < HEADER_SIZE + TIMESYNC_SERIALIZED_SIZE ==> r == Err::<SensorPayload, AirCommError>(AirCommError::InvalidMessage),
        data@.len() >= HEADER_SIZE + TIMESYNC_SERIALIZED_SIZE ==> r == Ok::<SensorPayload, AirCommError>(payload_of_bytes(MessageType::TimeSync, data@, HEADER_SIZE as int)),
{
    if data.len() < HEADER_SIZE + TIMESYNC_SERIALIZED_SIZE {
        return Err(AirCommError::InvalidMessage);
    }
    let session_time_us = get_u64_le(data, payload_offset);
    Ok(SensorPayload::TimeSync(TimeSyncData { session_time_us }))
}

/// A frame that a node serializes reads back, at the receiver, as the payload and
/// timestamp it was built from, whatever bytes follow it in the received buffer.
pub proof fn lemma_air_frame_round_trip(timestamp_us: u64, p: SensorPayload, extra: Seq<u8>, src_address: [u8; 6])
    ensures
        air_message_of(air_frame(timestamp_us, p) + extra, src_address)
            == Ok::<SensorMessage, AirCommError>(SensorMessage { src_address, timestamp_us, payload: p }),
{
    lemma_le_facts();
    let f = air_frame(timestamp_us, p);
    let s = f + extra;
    assert(s.subrange(1, 9) =~= spec_u64_to_le_bytes(timestamp_us));
    match p {
        SensorPayload::Imu(d) => {
            assert(s.subrange(9, 13) =~= spec_u32_to_le_bytes(d.accel_x_bits));
            assert(s.subrange(13, 17) =~= spec_u32_to_le_bytes(d.accel_y_bits));
            assert(s.subrange(17, 21) =~= spec_u32_to_le_bytes(d.accel_z_bits));
            assert(s.subrange(21, 25) =~= spec_u32_to_le_bytes(d.gyro_x_bits));
            assert(s.subrange(25, 29) =~= spec_u32_to_le_bytes(d.gyro_y_bits));
            assert(s.subrange(29, 33) =~= spec_u32_to_le_bytes(d.gyro_z_bits));
            assert(imu_of_bytes(s, 9) == d);
        },
        SensorPayload::Gps(d) => {
            assert(s.subrange(9, 17) =~= spec_u64_to_le_bytes(d.lat_bits));
            assert(s.subrange(17, 25) =~= spec_u64_to_le_bytes(d.lon_bits));
            assert(s.subrange(25, 29) =~= spec_u32_to_le_bytes(d.alt_bits));
            assert(s.subrange(29, 33) =~= spec_u32_to_le_bytes(d.speed_kts_bits));
            assert(s.subrange(33, 35) =~= spec_u16_to_le_bytes(d.heading));
            assert(s.subrange(35, 37) =~= spec_u16_to_le_bytes(d.utc_time.year));
            assert(s.subrange(42, 44) =~= spec_u16_to_le_bytes(d.utc_time.millis));
            assert(s[37] == d.utc_time.month);
            assert(s[38] == d.utc_time.day);
            assert(s[39] == d.utc_time.hours);
            assert(s[40] == d.utc_time.minutes);
            assert(s[41] == d.utc_time.seconds);
            assert(gps_time_of_bytes(s, 35) == d.utc_time);
            assert(gps_of_bytes(s, 9) == d);
        },
        SensorPayload::Heartbeat(h) => {
            lemma_position_code_round_trip(h.node_id.position);
            assert(s[9] == h.magic);
            assert(s[10] == position_code(h.node_id.position));
            assert(s[11] == h.node_id.instance);
            assert(heartbeat_of_bytes(s, 9) == h);
        },
        SensorPayload::TimeSync(d) => {
            assert(s.subrange(9, 17) =~= spec_u64_to_le_bytes(d.session_time_us));
        },
        _ => {},
    }
}

} // verus!
