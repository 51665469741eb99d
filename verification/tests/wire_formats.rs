use vehicle_daq::board::bridge::{broadcast_frame, forward_with_default_id, BridgeAction};
use vehicle_daq::board::radio::{apply_received_timesync, is_capture_request};
use vehicle_daq::board::timebase::TimeBase;
use vehicle_daq::board::aircomm::error::AirCommError;
use vehicle_daq::board::aircomm::message::{HeartbeatData, MessageType, SensorMessage, SensorPayload, TimeSyncData};
use vehicle_daq::board::aircomm::protocol::{
    deserialize, serialize_gps, serialize_heartbeat, serialize_imu, serialize_request_gps_capture, serialize_timesync,
    serialize_track_capture_armed, serialize_track_capture_ended, HEADER_SIZE,
};
use vehicle_daq::board::types::{CarPosition, GpsData, GpsTime, ImuData, NodeId};
use vehicle_daq::board::usb::protocol::{
    format_mac, parse_usb_command, serialize_forwarded_message, ForwardError, UsbCommand, MAX_USB_MESSAGE_SIZE,
};
use vehicle_daq::board::usb::{usb_frame, UsbError, UsbRxFramer, MAX_MESSAGE_SIZE};
use vehicle_daq::cobs_frame::{frame_message, CobsError};
use vehicle_daq::receiver::session::{decode_frame, FrameAssembler, FrameOutcome};
use vehicle_daq::receiver::timesync::encode_timesync_command;
use vehicle_daq::receiver::track_capture::{encode_bridge_hmi_command, encode_request_floating_gps_command, CMD_ARM_TRACK};
use vehicle_daq::receiver::types::{
    format_mac_address, parse_message, CarPosition as RxPosition, MessageType as RxType, NodeId as RxNodeId, ParserError,
};

fn sample_imu() -> ImuData {
    ImuData {
        accel_x_bits: 1.0f32.to_bits(),
        accel_y_bits: (-0.5f32).to_bits(),
        accel_z_bits: 9.81f32.to_bits(),
        gyro_x_bits: 0.25f32.to_bits(),
        gyro_y_bits: 0.0f32.to_bits(),
        gyro_z_bits: (-3.5f32).to_bits(),
    }
}

fn sample_gps() -> GpsData {
    GpsData {
        lat_bits: 42.2936f64.to_bits(),
        lon_bits: (-83.7166f64).to_bits(),
        alt_bits: 256.5f32.to_bits(),
        speed_kts_bits: 12.25f32.to_bits(),
        heading: 271,
        utc_time: GpsTime { year: 2025, month: 6, day: 14, hours: 13, minutes: 5, seconds: 59, millis: 800 },
    }
}

#[test]
fn message_type_codes_round_trip() {
    assert_eq!(MessageType::from_u8(0x01), Some(MessageType::Imu));
    assert_eq!(MessageType::from_u8(0x02), Some(MessageType::Gps));
    assert_eq!(MessageType::from_u8(0xFF), Some(MessageType::Heartbeat));
    assert_eq!(MessageType::from_u8(0x03), Some(MessageType::TimeSync));
    assert_eq!(MessageType::from_u8(0x04), Some(MessageType::RequestGpsCapture));
    assert_eq!(MessageType::from_u8(0x05), Some(MessageType::TrackCaptureArmed));
    assert_eq!(MessageType::from_u8(0x06), Some(MessageType::TrackCaptureEnded));
    assert_eq!(MessageType::from_u8(0x07), None);
    assert_eq!(MessageType::TimeSync.to_u8(), 0x03);
    assert_eq!(MessageType::Heartbeat.to_u8(), 0xFF);
    assert_eq!(MessageType::Imu.to_u8(), 0x01);
}

#[test]
fn heartbeat_defaults() {
    let h = HeartbeatData::default();
    assert_eq!(h.magic, 0x42);
    assert_eq!(h.node_id.position, CarPosition::Custom);
    assert_eq!(h.node_id.instance, 0);
    assert_eq!(HeartbeatData::new(7).magic, 7);
}

#[test]
fn heartbeat_serializes_exactly() {
    let mut buf = [0xAAu8; 16];
    let h = HeartbeatData { magic: 0x42, node_id: NodeId::new(CarPosition::RearLeft, 3) };
    let n = serialize_heartbeat(0x0102030405060708, &h, &mut buf).unwrap();
    assert_eq!(n, 12);
    assert_eq!(&buf[..12], &[0xFF, 0x08, 0x07, 0x06, 0x05, 0x04, 0x03, 0x02, 0x01, 0x42, 6, 3]);
    assert_eq!(&buf[12..], &[0xAA; 4]);
}

#[test]
fn serialize_refuses_small_buffer() {
    let mut buf = [0u8; 11];
    assert_eq!(serialize_heartbeat(1, &HeartbeatData::default(), &mut buf), Err(AirCommError::BufferTooSmall));
    assert_eq!(buf, [0u8; 11]);
    let mut small = [0u8; 32];
    assert_eq!(serialize_imu(1, &sample_imu(), &mut small), Err(AirCommError::BufferTooSmall));
    let mut small2 = [0u8; 43];
    assert_eq!(serialize_gps(1, &sample_gps(), &mut small2), Err(AirCommError::BufferTooSmall));
}

#[test]
fn air_imu_round_trip() {
    let mut buf = [0u8; 64];
    let n = serialize_imu(123_456_789, &sample_imu(), &mut buf).unwrap();
    assert_eq!(n, HEADER_SIZE + 24);
    assert_eq!(&buf[9..13], &1.0f32.to_le_bytes());
    let msg = deserialize(&buf[..n], [1, 2, 3, 4, 5, 6]).unwrap();
    assert_eq!(msg.timestamp_us, 123_456_789);
    assert_eq!(msg.src_address, [1, 2, 3, 4, 5, 6]);
    assert_eq!(msg.payload, SensorPayload::Imu(sample_imu()));
}

#[test]
fn air_gps_round_trip() {
    let mut buf = [0u8; 64];
    let n = serialize_gps(42, &sample_gps(), &mut buf).unwrap();
    assert_eq!(n, 44);
    assert_eq!(buf[0], 0x02);
    let msg = deserialize(&buf[..n], [9; 6]).unwrap();
    assert_eq!(msg.payload, SensorPayload::Gps(sample_gps()));
    assert_eq!(msg.payload.message_type(), MessageType::Gps);
}

#[test]
fn air_heartbeat_round_trip_ignores_trailing_bytes() {
    let mut buf = [0u8; 20];
    let h = HeartbeatData { magic: 0x42, node_id: NodeId::new(CarPosition::Roof, 1) };
    let n = serialize_heartbeat(5, &h, &mut buf).unwrap();
    let msg = deserialize(&buf[..n + 3], [0; 6]).unwrap();
    assert_eq!(msg.payload, SensorPayload::Heartbeat(h));
}

#[test]
fn deserialize_errors() {
    assert_eq!(deserialize(&[0x01, 0, 0], [0; 6]).unwrap_err(), AirCommError::InvalidMessage);
    let mut unknown = [0u8; 20];
    unknown[0] = 0x07;
    assert_eq!(deserialize(&unknown, [0; 6]).unwrap_err(), AirCommError::UnknownMessageType);
    let mut short_imu = [0u8; 20];
    short_imu[0] = 0x01;
    assert_eq!(deserialize(&short_imu, [0; 6]).unwrap_err(), AirCommError::InvalidMessage);
}

#[test]
fn node_id_bytes_round_trip() {
    let id = NodeId::new(CarPosition::FrontRight, 9);
    assert_eq!(id.to_bytes(), [2, 9]);
    assert_eq!(NodeId::from_bytes([2, 9]), id);
    assert_eq!(NodeId::from_bytes([77, 1]).position, CarPosition::Custom);
}

#[test]
fn car_position_codes_and_names() {
    assert_eq!(CarPosition::from_u8(0), CarPosition::FrontLeft);
    assert_eq!(CarPosition::from_u8(9), CarPosition::Roof);
    assert_eq!(CarPosition::from_u8(10), CarPosition::Custom);
    assert_eq!(CarPosition::RearCenter.to_u8(), 7);
    assert_eq!(CarPosition::Custom.to_u8(), 255);
    assert_eq!(CarPosition::FrontCenter.as_str(), "FrontCenter");
    assert_eq!(vehicle_daq::board::types::configured_position(), CarPosition::Custom);
}

#[test]
fn forwarded_message_layout() {
    let mut buf = [0u8; MAX_USB_MESSAGE_SIZE];
    let mac = [0xAA, 0xBB, 0xCC, 0x01, 0x02, 0x03];
    let id = NodeId::new(CarPosition::Left, 2);
    let hb = SensorPayload::Heartbeat(HeartbeatData { magic: 0x42, node_id: id });
    let n = serialize_forwarded_message(&mac, &id, 1000, &hb, &mut buf).unwrap();
    assert_eq!(n, 18);
    assert_eq!(&buf[..6], &mac);
    assert_eq!(&buf[6..8], &[3, 2]);
    assert_eq!(&buf[8..16], &1000u64.to_le_bytes());
    assert_eq!(buf[16], 0xFF);
    assert_eq!(buf[17], 0x42);
    let n_imu = serialize_forwarded_message(&mac, &id, 1, &SensorPayload::Imu(sample_imu()), &mut buf).unwrap();
    assert_eq!(n_imu, 41);
    let n_gps = serialize_forwarded_message(&mac, &id, 1, &SensorPayload::Gps(sample_gps()), &mut buf).unwrap();
    assert_eq!(n_gps, 52);
    let mut small = [0u8; 80];
    assert_eq!(serialize_forwarded_message(&mac, &id, 1, &hb, &mut small), Err(ForwardError::BufferTooSmall));
}

#[test]
fn forwarded_gps_parses_on_receiver() {
    let mut buf = [0u8; MAX_USB_MESSAGE_SIZE];
    let mac = [1, 2, 3, 4, 5, 6];
    let id = NodeId::new(CarPosition::Roof, 0);
    let n = serialize_forwarded_message(&mac, &id, 777, &SensorPayload::Gps(sample_gps()), &mut buf).unwrap();
    let msg = parse_message(&buf[..n]).unwrap();
    assert_eq!(msg.src_mac, mac);
    assert_eq!(msg.node_position, RxPosition::Roof);
    assert_eq!(msg.node_instance, 0);
    assert_eq!(msg.timestamp_us, 777);
    assert_eq!(msg.message_type, RxType::Gps);
    let g = msg.gps.unwrap();
    assert_eq!(f64::from_bits(g.lat_bits), 42.2936);
    assert_eq!(f32::from_bits(g.alt_bits), 256.5);
    assert_eq!(g.heading, 271);
    assert_eq!(g.utc_time_year, 2025);
    assert_eq!(g.utc_time_millis, 800);
    assert!(msg.imu.is_none());
}

#[test]
fn receiver_parse_errors() {
    assert_eq!(parse_message(&[0u8; 16]).unwrap_err(), ParserError::TooShort);
    let mut bad = [0u8; 17];
    bad[16] = 0x33;
    assert_eq!(parse_message(&bad).unwrap_err(), ParserError::InvalidMessageType(0x33));
    let mut short_gps = [0u8; 30];
    short_gps[16] = 0x02;
    assert_eq!(parse_message(&short_gps).unwrap_err(), ParserError::ParseError("GPS payload too short".to_string()));
    let mut short_imu = [0u8; 20];
    short_imu[16] = 0x01;
    assert_eq!(parse_message(&short_imu).unwrap_err(), ParserError::ParseError("IMU payload too short".to_string()));
    let mut short_hb = [0u8; 17];
    short_hb[16] = 0xFF;
    assert_eq!(parse_message(&short_hb).unwrap_err(), ParserError::ParseError("Heartbeat payload too short".to_string()));
}

#[test]
fn track_capture_heartbeat_has_no_payload() {
    let mut b = [0u8; 17];
    b[6] = 254;
    b[16] = 0xFE;
    let msg = parse_message(&b).unwrap();
    assert_eq!(msg.message_type, RxType::TrackCaptureHeartbeat);
    assert_eq!(msg.node_position, RxPosition::Floating);
    assert_eq!(msg.message_type.as_str(), "TrackCaptureHeartbeat");
}

#[test]
fn receiver_position_names() {
    assert_eq!(RxPosition::from_u8(254), RxPosition::Floating);
    assert_eq!(RxPosition::from_u8(200), RxPosition::Custom);
    assert_eq!(RxPosition::Floating.as_str(), "Floating");
    assert_eq!(RxNodeId::from_bytes([5, 4]), RxNodeId { position: RxPosition::Right, instance: 4 });
    assert_eq!(RxType::from_u8(0x01), RxType::Imu);
    assert_eq!(RxType::from_u8(0x09), RxType::Unknown);
}

#[test]
fn mac_text_formats() {
    let mac = [0x0A, 0xFF, 0x00, 0x10, 0xB2, 0x7C];
    assert_eq!(format_mac(&mac), "0A:FF:00:10:B2:7C");
    assert_eq!(format_mac_address(&mac), "0A:FF:00:10:B2:7C");
}

#[test]
fn usb_commands_parse() {
    let mut ts = vec![0x01];
    ts.extend_from_slice(&123456u64.to_le_bytes());
    assert_eq!(parse_usb_command(&ts), Ok(UsbCommand::TimeSync { session_time_us: 123456 }));
    assert_eq!(parse_usb_command(&[0x01, 1, 2]), Err(ForwardError::BufferTooSmall));
    assert_eq!(parse_usb_command(&[]), Err(ForwardError::BufferTooSmall));
    assert_eq!(parse_usb_command(&[0x02]), Ok(UsbCommand::RequestFloatingGps));
    assert_eq!(parse_usb_command(&[0x03]), Ok(UsbCommand::ArmTrack));
    assert_eq!(parse_usb_command(&[0x04]), Ok(UsbCommand::EndTrack));
    assert_eq!(parse_usb_command(&[0x05]), Ok(UsbCommand::CaptureSuccess));
    assert_eq!(parse_usb_command(&[0x06]), Ok(UsbCommand::CaptureTimeout));
    assert_eq!(parse_usb_command(&[0x09]), Err(ForwardError::UnsupportedPayload));
}

#[test]
fn cobs_frame_is_delimited_and_zero_free() {
    let msg = [0x11, 0x00, 0x22, 0x00, 0x00, 0x33];
    let f = frame_message(&msg);
    assert_eq!(f, vec![0x02, 0x11, 0x02, 0x22, 0x01, 0x02, 0x33, 0x00]);
    assert_eq!(frame_message(&[]), vec![0x00]);
}

#[test]
fn usb_frame_limits() {
    let big = vec![1u8; MAX_MESSAGE_SIZE + 1];
    assert_eq!(usb_frame(&big), Err(UsbError::MessageTooLarge));
    let ok = usb_frame(&[0x05]).unwrap();
    assert_eq!(ok, vec![0x02, 0x05, 0x00]);
}

#[test]
fn host_command_reaches_bridge() {
    let frame = encode_timesync_command(987_654_321);
    assert_eq!(*frame.last().unwrap(), 0);
    let mut rx = UsbRxFramer::new();
    let mut got = None;
    for b in frame {
        if let Some(c) = rx.push_byte(b) {
            got = Some(c);
        }
    }
    assert_eq!(got, Some(UsbCommand::TimeSync { session_time_us: 987_654_321 }));
    let mut rx2 = UsbRxFramer::new();
    let mut cmds = vec![];
    for b in encode_request_floating_gps_command().into_iter().chain(encode_bridge_hmi_command(CMD_ARM_TRACK)) {
        if let Some(c) = rx2.push_byte(b) {
            cmds.push(c);
        }
    }
    assert_eq!(cmds, vec![UsbCommand::RequestFloatingGps, UsbCommand::ArmTrack]);
}

#[test]
fn usb_rx_drops_malformed_and_overlong_frames() {
    let mut rx = UsbRxFramer::new();
    assert_eq!(rx.push_byte(0), None);
    for _ in 0..65 {
        assert_eq!(rx.push_byte(0x05), None);
    }
    assert_eq!(rx.push_byte(0x02), None);
    assert_eq!(rx.push_byte(0x03), None);
    assert_eq!(rx.push_byte(0), Some(UsbCommand::ArmTrack));
    for b in [0x05, 0x01, 0x00, 0x02, 0x09, 0x00] {
        assert_eq!(rx.push_byte(b), None);
    }
}

#[test]
fn bridge_frame_reaches_receiver() {
    let mut buf = [0u8; MAX_USB_MESSAGE_SIZE];
    let mac = [7, 7, 7, 7, 7, 7];
    let id = NodeId::new(CarPosition::Center, 4);
    let n = serialize_forwarded_message(&mac, &id, 55, &SensorPayload::Imu(sample_imu()), &mut buf).unwrap();
    let framed = usb_frame(&buf[..n]).unwrap();
    let mut assembler = FrameAssembler::new();
    let mut frames = vec![];
    for b in framed {
        if let Some(f) = assembler.push(b) {
            frames.push(f);
        }
    }
    assert_eq!(frames.len(), 1);
    match decode_frame(&frames[0]) {
        FrameOutcome::Message(m) => {
            assert_eq!(m.node_position, RxPosition::Center);
            assert_eq!(m.node_instance, 4);
            assert_eq!(m.timestamp_us, 55);
            assert_eq!(f32::from_bits(m.imu.unwrap().accel_z_bits), 9.81);
        }
        other => panic!("unexpected {:?}", other),
    }
}

#[test]
fn decode_frame_reports_cobs_errors() {
    match decode_frame(&[]) {
        FrameOutcome::CobsError(CobsError::EmptyFrame) => {}
        other => panic!("unexpected {:?}", other),
    }
    match decode_frame(&[0x05, 0x01]) {
        FrameOutcome::CobsError(_) => {}
        other => panic!("unexpected {:?}", other),
    }
    match decode_frame(&[0x02, 0x01]) {
        FrameOutcome::ParseError(ParserError::TooShort) => {}
        other => panic!("unexpected {:?}", other),
    }
}

#[test]
fn sensor_message_holds_fields() {
    let m = SensorMessage { src_address: [1; 6], timestamp_us: 3, payload: SensorPayload::Heartbeat(HeartbeatData::new(1)) };
    assert_eq!(m.payload.message_type(), MessageType::Heartbeat);
}

#[test]
fn first_bridge_forwards_under_default_id() {
    let m = SensorMessage { src_address: [4; 6], timestamp_us: 99, payload: SensorPayload::Heartbeat(HeartbeatData::new(0x42)) };
    let out = forward_with_default_id(&m).unwrap();
    assert_eq!(out.len(), 18);
    assert_eq!(&out[6..8], &[255, 0]);
    assert_eq!(&out[8..16], &99u64.to_le_bytes());
    let sync = SensorMessage { src_address: [4; 6], timestamp_us: 99, payload: SensorPayload::TimeSync(TimeSyncData::new(5)) };
    assert!(forward_with_default_id(&sync).is_none());
}

#[test]
fn control_messages_round_trip() {
    let mut buf = [0xAAu8; 20];
    assert_eq!(serialize_timesync(7, &TimeSyncData::new(0x0102_0304_0506_0708), &mut buf), Ok(17));
    assert_eq!(buf[0], 0x03);
    assert_eq!(&buf[1..9], &7u64.to_le_bytes());
    assert_eq!(&buf[9..17], &0x0102_0304_0506_0708u64.to_le_bytes());
    assert_eq!(&buf[17..], &[0xAA; 3]);
    let m = deserialize(&buf, [3; 6]).unwrap();
    assert_eq!(m.timestamp_us, 7);
    assert_eq!(m.payload, SensorPayload::TimeSync(TimeSyncData::new(0x0102_0304_0506_0708)));
    assert_eq!(deserialize(&buf[..16], [3; 6]).unwrap_err(), AirCommError::InvalidMessage);
    let mut small = [0u8; 16];
    assert_eq!(serialize_timesync(7, &TimeSyncData::new(1), &mut small), Err(AirCommError::BufferTooSmall));
    assert_eq!(small, [0u8; 16]);

    let cases: [(fn(u64, &mut [u8]) -> Result<usize, AirCommError>, u8, SensorPayload); 3] = [
        (serialize_request_gps_capture, 0x04, SensorPayload::RequestGpsCapture),
        (serialize_track_capture_armed, 0x05, SensorPayload::TrackCaptureArmed),
        (serialize_track_capture_ended, 0x06, SensorPayload::TrackCaptureEnded),
    ];
    for (f, code, payload) in cases {
        let mut b = [0u8; 9];
        assert_eq!(f(42, &mut b), Ok(HEADER_SIZE));
        assert_eq!(b[0], code);
        assert_eq!(&b[1..9], &42u64.to_le_bytes());
        let m = deserialize(&b, [1; 6]).unwrap();
        assert_eq!((m.timestamp_us, m.payload), (42, payload));
        let mut short = [0u8; 8];
        assert_eq!(f(42, &mut short), Err(AirCommError::BufferTooSmall));
        assert_eq!(short, [0u8; 8]);
    }
}

#[test]
fn control_messages_are_not_forwarded() {
    let mut buf = [0x55u8; MAX_USB_MESSAGE_SIZE];
    for p in [
        SensorPayload::TimeSync(TimeSyncData::new(1)),
        SensorPayload::RequestGpsCapture,
        SensorPayload::TrackCaptureArmed,
        SensorPayload::TrackCaptureEnded,
    ] {
        assert_eq!(
            serialize_forwarded_message(&[1; 6], &NodeId::new(CarPosition::Custom, 0), 5, &p, &mut buf),
            Err(ForwardError::UnsupportedPayload)
        );
        assert_eq!(buf, [0x55u8; MAX_USB_MESSAGE_SIZE]);
    }
}

#[test]
fn bridge_broadcasts_and_nodes_react() {
    assert!(broadcast_frame(BridgeAction::Nothing, 1).is_none());
    let sync = broadcast_frame(BridgeAction::BroadcastTimeSync { session_time_us: 5_000 }, 9).unwrap();
    let m = deserialize(&sync, [2; 6]).unwrap();
    assert_eq!((m.timestamp_us, m.payload), (9, SensorPayload::TimeSync(TimeSyncData::new(5_000))));
    let req = broadcast_frame(BridgeAction::BroadcastRequestGpsCapture, 11).unwrap();
    assert_eq!(req.len(), 9);
    let r = deserialize(&req, [2; 6]).unwrap();
    assert!(is_capture_request(&r.payload));
    assert!(!is_capture_request(&m.payload));

    let mut tb = TimeBase::new();
    assert!(!apply_received_timesync(&mut tb, &r.payload, 100));
    assert!(!tb.is_time_synced());
    assert!(apply_received_timesync(&mut tb, &m.payload, 1_000));
    assert!(tb.is_time_synced());
    assert_eq!(tb.synced_timestamp_us(1_000), 5_000);
    assert_eq!(tb.synced_timestamp_us(1_500), 5_500);
}
