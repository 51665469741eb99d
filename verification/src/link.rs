//! What the bridge writes on the USB link is what the receiver reads.

use vstd::prelude::*;
use vstd::bytes::{spec_u16_to_le_bytes, spec_u32_to_le_bytes, spec_u64_to_le_bytes};
use crate::wire::lemma_le_facts;
use crate::board::types as node;
use crate::board::aircomm::message::SensorPayload;
use crate::board::usb::protocol::{forwardable, forwarded_bytes};
use crate::receiver::types as rx;
use crate::receiver::session::{assemble_all, lemma_assemble_one_frame, COBS_DECODED_BUFFER_SIZE};
use crate::cobs_frame::cobs_decoding;

verus! {

/// The receiver's reading of a node position: same code, same name.
pub open spec fn received_position(p: node::CarPosition) -> rx::CarPosition {
    rx::position_of_code(node::position_code(p))
}

/// The readings the receiver decodes from a forwarded payload.
pub open spec fn received_message(mac: [u8; 6], node_id: node::NodeId, timestamp_us: u64, p: SensorPayload) -> rx::DecodedMessage {
    let h = rx::DecodedMessage {
        src_mac: mac,
        node_position: received_position(node_id.position),
        node_instance: node_id.instance,
        timestamp_us,
        message_type: rx::MessageType::Imu,
        imu: None,
        gps: None,
        magic: None,
    };
    match p {
        SensorPayload::Imu(d) => rx::DecodedMessage {
            message_type: rx::MessageType::Imu,
            imu: Some(rx::ImuReadings {
                accel_x_bits: d.accel_x_bits,
                accel_y_bits: d.accel_y_bits,
                accel_z_bits: d.accel_z_bits,
                gyro_x_bits: d.gyro_x_bits,
                gyro_y_bits: d.gyro_y_bits,
                gyro_z_bits: d.gyro_z_bits,
            }),
            ..h
        },
        SensorPayload::Gps(d) => rx::DecodedMessage {
            message_type: rx::MessageType::Gps,
            gps: Some(rx::GpsReadings {
                lat_bits: d.lat_bits,
                lon_bits: d.lon_bits,
                alt_bits: d.alt_bits,
                speed_kts_bits: d.speed_kts_bits,
                heading: d.heading,
                utc_time_year: d.utc_time.year,
                utc_time_month: d.utc_time.month,
                utc_time_day: d.utc_time.day,
                utc_time_hours: d.utc_time.hours,
                utc_time_minutes: d.utc_time.minutes,
                utc_time_seconds: d.utc_time.seconds,
                utc_time_millis: d.utc_time.millis,
            }),
            ..h
        },
        SensorPayload::Heartbeat(hb) => rx::DecodedMessage {
            message_type: rx::MessageType::Heartbeat,
            magic: Some(hb.magic),
            ..h
        },
        _ => h,
    }
}

/// A node position keeps its name on the receiver.
pub proof fn lemma_position_name_preserved(p: node::CarPosition)
    ensures
        rx::position_name(received_position(p)) == node::position_name(p),
{
}

/// Every message the bridge forwards decodes, on the receiver, to the sender's
/// MAC, node identifier, timestamp, type and readings.
pub proof fn lemma_forwarded_message_decodes(mac: [u8; 6], node_id: node::NodeId, timestamp_us: u64, p: SensorPayload)
    requires
        forwardable(p),
    ensures
        rx::decode_outcome(forwarded_bytes(mac@, node_id, timestamp_us, p))
            == Ok::<rx::DecodedMessage, rx::DecodeFailure>(received_message(mac, node_id, timestamp_us, p)),
{
    lemma_le_facts();
    let b = forwarded_bytes(mac@, node_id, timestamp_us, p);
    assert(b.subrange(8, 16) =~= spec_u64_to_le_bytes(timestamp_us));
    assert([b[0], b[1], b[2], b[3], b[4], b[5]] =~= mac);
    match p {
        SensorPayload::Imu(d) => {
            assert(b.subrange(17, 21) =~= spec_u32_to_le_bytes(d.accel_x_bits));
            assert(b.subrange(21, 25) =~= spec_u32_to_le_bytes(d.accel_y_bits));
            assert(b.subrange(25, 29) =~= spec_u32_to_le_bytes(d.accel_z_bits));
            assert(b.subrange(29, 33) =~= spec_u32_to_le_bytes(d.gyro_x_bits));
            assert(b.subrange(33, 37) =~= spec_u32_to_le_bytes(d.gyro_y_bits));
            assert(b.subrange(37, 41) =~= spec_u32_to_le_bytes(d.gyro_z_bits));
        },
        SensorPayload::Gps(d) => {
            assert(b.subrange(17, 25) =~= spec_u64_to_le_bytes(d.lat_bits));
            assert(b.subrange(25, 33) =~= spec_u64_to_le_bytes(d.lon_bits));
            assert(b.subrange(33, 37) =~= spec_u32_to_le_bytes(d.alt_bits));
            assert(b.subrange(37, 41) =~= spec_u32_to_le_bytes(d.speed_kts_bits));
            assert(b.subrange(41, 43) =~= spec_u16_to_le_bytes(d.heading));
            assert(b.subrange(43, 45) =~= spec_u16_to_le_bytes(d.utc_time.year));
            assert(b.subrange(50, 52) =~= spec_u16_to_le_bytes(d.utc_time.millis));
        },
        _ => {},
    }
}

/// End to end: when the bridge writes the link frame of a forwarded message (as
/// `usb_frame` promises it: no 0x00 before the closing delimiter, and the COBS
/// decoding of the rest is the message), the receiver's frame assembler,
/// starting between frames, completes exactly that one frame, it decodes within
/// the decoder's room, and it parses to the sender's MAC, node, timestamp,
/// type and readings.
pub proof fn law_bridge_frame_reaches_receiver(
    mac: [u8; 6],
    node_id: node::NodeId,
    timestamp_us: u64,
    p: SensorPayload,
    link: Seq<u8>,
)
    requires
        forwardable(p),
        link.len() >= 1,
        link.last() == 0u8,
        forall|i: int| 0 <= i < link.len() - 1 ==> link[i] != 0u8,
        cobs_decoding(link.drop_last()) == Some(forwarded_bytes(mac@, node_id, timestamp_us, p)),
    ensures
        assemble_all(Seq::empty(), link) == (Seq::<u8>::empty(), seq![link.drop_last()]),
        cobs_decoding(link.drop_last()) matches Some(b) && b.len() <= COBS_DECODED_BUFFER_SIZE
            && rx::decode_outcome(b) == Ok::<rx::DecodedMessage, rx::DecodeFailure>(received_message(mac, node_id, timestamp_us, p)),
{
    let enc = link.drop_last();
    assert(enc.push(0u8) =~= link);
    lemma_assemble_one_frame(enc);
    lemma_forwarded_message_decodes(mac, node_id, timestamp_us, p);
    lemma_le_facts();
}

} // verus!
