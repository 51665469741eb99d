use vehicle_daq::receiver::camera::trim_text;
use vehicle_daq::receiver::console::{parse_console_command, ConsoleCommand};
use vehicle_daq::plotter::line_pixels;
use vehicle_daq::board::aircomm::message::SensorPayload;
use vehicle_daq::board::types::{CarPosition, GpsData, GpsTime, NodeId};
use vehicle_daq::board::usb::protocol::{serialize_forwarded_message, MAX_USB_MESSAGE_SIZE};
use vehicle_daq::board::usb::usb_frame;
use vehicle_daq::plotter::{output_path_for, tile_url};
use vehicle_daq::receiver::camera::{
    parse_status_reply, signed_decimal_string, start_command, status_command, stop_command, StatusReplyError,
};
use vehicle_daq::receiver::gpio::{session_active, video_action, with_ahrs, ArmEdge, GpioLevels, TrackInputs, VideoAction};
use vehicle_daq::receiver::session::{
    decode_frame, gps_sample, should_log, AhrsSchedule, FrameOutcome, GpsSample, ImuStep, TrackCapture, TrackEvent,
};
use vehicle_daq::receiver::track_capture::{
    ends_capture, encode_request_floating_gps_command, track_event_command, FloatingGpsCollector, FloatingGpsError,
    CMD_CAPTURE_SUCCESS, CMD_CAPTURE_TIMEOUT,
};
use vehicle_daq::receiver::types::CarPosition as RxPosition;

fn gps_link_frame(lat: f64) -> Vec<u8> {
    let mut buf = [0u8; MAX_USB_MESSAGE_SIZE];
    let g = GpsData {
        lat_bits: lat.to_bits(),
        lon_bits: 8.5f64.to_bits(),
        alt_bits: 100.0f32.to_bits(),
        speed_kts_bits: 0,
        heading: 0,
        utc_time: GpsTime { year: 0, month: 0, day: 0, hours: 0, minutes: 0, seconds: 0, millis: 0 },
    };
    let n = serialize_forwarded_message(&[1; 6], &NodeId::new(CarPosition::Custom, 0), 1, &SensorPayload::Gps(g), &mut buf)
        .unwrap();
    usb_frame(&buf[..n]).unwrap()
}

fn sample(lat: f64) -> GpsSample {
    GpsSample { lat_bits: lat.to_bits(), lon_bits: 8.5f64.to_bits(), alt_bits: 100.0f32.to_bits() }
}

#[test]
fn floating_collector_reads_gps_frames() {
    let mut c = FloatingGpsCollector::new();
    for lat in [1.0, 2.0] {
        for b in gps_link_frame(lat) {
            c.push_byte(b);
        }
    }
    c.push_byte(0);
    c.push_byte(0x05);
    c.push_byte(0);
    assert!(!c.is_complete());
    for lat in [3.0, 4.0, 5.0] {
        for b in gps_link_frame(lat) {
            c.push_byte(b);
        }
    }
    assert!(c.is_complete());
    let v = c.finish().unwrap();
    assert_eq!(v, vec![sample(1.0), sample(2.0), sample(3.0), sample(4.0), sample(5.0)]);
    assert_eq!(FloatingGpsCollector::new().finish(), Err(FloatingGpsError::NoSamples));
}

#[test]
fn track_capture_collects_five_samples() {
    let mut t = TrackCapture::new();
    assert!(matches!(t.on_message(Some(sample(1.0)), false, 0), TrackEvent::Idle));
    for i in 0..4 {
        assert!(matches!(t.on_message(Some(sample(i as f64)), true, 100), TrackEvent::Collected));
    }
    match t.on_message(Some(sample(9.0)), true, 200) {
        TrackEvent::Captured(v) => assert_eq!(v.len(), 5),
        _ => panic!("expected capture"),
    }
}

#[test]
fn track_capture_times_out() {
    let mut t = TrackCapture::new();
    assert!(matches!(t.on_message(None, true, 1000), TrackEvent::Idle));
    assert!(matches!(t.on_message(Some(sample(1.0)), true, 2000), TrackEvent::Collected));
    match t.on_message(Some(sample(2.0)), true, 6001) {
        TrackEvent::TimedOut { samples_dropped } => assert_eq!(samples_dropped, 1),
        _ => panic!("expected timeout"),
    }
}

#[test]
fn ahrs_schedule_follows_primary_node() {
    let mut s = AhrsSchedule::new(10);
    assert_eq!(s.on_imu([1; 6], 1_000), ImuStep::Feed { start_filter: true, emit: false });
    assert_eq!(s.on_imu([2; 6], 50_000), ImuStep::NotPrimary);
    assert_eq!(s.on_imu([1; 6], 99_000), ImuStep::Feed { start_filter: false, emit: false });
    assert_eq!(s.on_imu([1; 6], 101_000), ImuStep::Feed { start_filter: false, emit: true });
    assert_eq!(s.on_imu([1; 6], 150_000), ImuStep::Feed { start_filter: false, emit: false });
    let mut fast = AhrsSchedule::new(2_000_000);
    assert_eq!(fast.on_imu([1; 6], 100), ImuStep::Feed { start_filter: true, emit: true });
    assert_eq!(fast.on_imu([1; 6], 50), ImuStep::Feed { start_filter: false, emit: true });
    assert_eq!(fast.on_imu([1; 6], 50), ImuStep::Feed { start_filter: false, emit: true });
}

#[test]
fn logging_filter_and_samples() {
    let frame = gps_link_frame(7.0);
    let msg = match decode_frame(&frame[..frame.len() - 1]) {
        FrameOutcome::Message(m) => m,
        _ => panic!("expected message"),
    };
    assert!(should_log(&msg, None));
    assert!(should_log(&msg, Some(RxPosition::Custom)));
    assert!(!should_log(&msg, Some(RxPosition::Floating)));
    assert_eq!(gps_sample(&msg), Some(sample(7.0)));
}

#[test]
fn camera_commands() {
    assert_eq!(start_command(0), "start:0");
    assert_eq!(start_command(1_234_567), "start:1234567");
    assert_eq!(stop_command(), "stop");
    assert_eq!(status_command(), "status_us");
    assert_eq!(signed_decimal_string(-42), "-42");
    assert_eq!(signed_decimal_string(i64::MIN), "-9223372036854775808");
}

#[test]
fn camera_status_replies() {
    assert_eq!(parse_status_reply("IDLE"), Ok(None));
    assert_eq!(parse_status_reply("idle"), Ok(None));
    assert_eq!(parse_status_reply("ELAPSED_US:12345"), Ok(Some(12345)));
    assert_eq!(parse_status_reply("ELAPSED_US: +7 "), Ok(Some(7)));
    assert_eq!(parse_status_reply("ELAPSED_US:18446744073709551615"), Ok(Some(u64::MAX)));
    assert_eq!(parse_status_reply("ELAPSED_US:18446744073709551616"), Err(StatusReplyError::InvalidNumber));
    assert_eq!(parse_status_reply("ELAPSED_US:"), Err(StatusReplyError::InvalidNumber));
    assert_eq!(parse_status_reply("ELAPSED_US:-1"), Err(StatusReplyError::InvalidNumber));
    assert_eq!(parse_status_reply("elapsed_us:5"), Err(StatusReplyError::Unexpected));
    assert_eq!(parse_status_reply("BUSY"), Err(StatusReplyError::Unexpected));
}

#[test]
fn gpio_decisions() {
    let levels = GpioLevels { init: false, post: true, video: false, track_arm: false, track_capture: false };
    assert!(session_active(&levels));
    assert!(with_ahrs(&levels));
    assert!(!session_active(&GpioLevels { post: false, ..levels }));
    assert_eq!(video_action(true, false), VideoAction::Start);
    assert_eq!(video_action(false, true), VideoAction::Stop);
    assert_eq!(video_action(true, true), VideoAction::Nothing);
    let mut t = TrackInputs::new();
    assert_eq!(t.arm_edge(true), ArmEdge::Armed);
    assert_eq!(t.arm_edge(true), ArmEdge::Unchanged);
    assert_eq!(t.arm_edge(false), ArmEdge::Ended);
    assert!(!t.capture_requested(true, false));
    assert!(!t.capture_requested(true, true));
    assert!(!t.capture_requested(false, true));
    assert!(t.capture_requested(true, true));
}

#[test]
fn map_tile_urls() {
    assert_eq!(tile_url("https://tile.example/{z}/{x}/{y}.png", 15, 9000, -3), "https://tile.example/15/9000/-3.png");
    assert_eq!(tile_url("{z}{z}{x", 3, 1, 1), "33{x");
    assert_eq!(tile_url("no placeholders", 0, 0, 0), "no placeholders");
}

#[test]
fn plot_output_path() {
    assert_eq!(output_path_for("logs/day/run.csv"), "logs/day/run_track.png");
    assert_eq!(output_path_for("run.csv"), "run_track.png");
}

#[test]
fn line_pixels_follow_bresenham() {
    assert_eq!(line_pixels((0, 0), (3, 1), 10, 10), vec![(0, 0), (1, 0), (2, 1), (3, 1)]);
    assert_eq!(line_pixels((2, 2), (2, 2), 10, 10), vec![(2, 2)]);
    assert_eq!(line_pixels((1, 3), (1, 0), 10, 10), vec![(1, 3), (1, 2), (1, 1), (1, 0)]);
    assert_eq!(line_pixels((-1, -1), (1, 1), 10, 10), vec![(0, 0), (1, 1)]);
    assert_eq!(line_pixels((0, 0), (4, 4), 3, 10), vec![(0, 0), (1, 1), (2, 2)]);
    let long = line_pixels((0, 0), (200, 37), 1000, 1000);
    assert_eq!(long.first(), Some(&(0, 0)));
    assert_eq!(long.last(), Some(&(200, 37)));
    assert_eq!(long.len(), 201);
    for w in long.windows(2) {
        assert!(w[1].0 - w[0].0 <= 1 && w[1].1 >= w[0].1 && w[1].1 - w[0].1 <= 1);
    }
}

#[test]
fn console_commands() {
    assert_eq!(parse_console_command("  Arm Track Capture\n"), ConsoleCommand::ArmTrack);
    assert_eq!(parse_console_command("take location"), ConsoleCommand::TakeLocation);
    assert_eq!(parse_console_command("END track capture"), ConsoleCommand::EndTrack);
    assert_eq!(parse_console_command("please EXIT"), ConsoleCommand::Quit);
    assert_eq!(parse_console_command("quit and arm track"), ConsoleCommand::Quit);
    assert_eq!(parse_console_command("take"), ConsoleCommand::Other);
    assert_eq!(parse_console_command(""), ConsoleCommand::Other);
}

#[test]
fn trims_unicode_whitespace() {
    assert_eq!(trim_text("\u{3000} abc \u{A0}\n"), "abc");
    assert_eq!(trim_text(" \t "), "");
}

#[test]
fn track_capture_times_out_without_samples() {
    let mut t = TrackCapture::new();
    assert!(matches!(t.on_message(Some(sample(1.0)), true, 1000), TrackEvent::Collected));
    assert!(matches!(t.on_tick(true, 6000), TrackEvent::Idle));
    let ev = t.on_tick(true, 7000);
    match ev {
        TrackEvent::TimedOut { samples_dropped } => assert_eq!(samples_dropped, 1),
        _ => panic!("expected timeout"),
    }
    assert_eq!(track_event_command(&ev), Some(CMD_CAPTURE_TIMEOUT));
    assert!(ends_capture(&ev));
    assert!(matches!(t.on_tick(true, 20_000), TrackEvent::Idle));
    let mut idle = TrackCapture::new();
    assert!(matches!(idle.on_message(None, true, 0), TrackEvent::Idle));
    assert!(matches!(idle.on_tick(false, 10_000), TrackEvent::Idle));
}

#[test]
fn track_capture_outcome_commands() {
    let captured = TrackEvent::Captured(vec![sample(1.0); 5]);
    assert_eq!(track_event_command(&captured), Some(CMD_CAPTURE_SUCCESS));
    assert!(ends_capture(&captured));
    assert_eq!(track_event_command(&TrackEvent::Collected), None);
    assert!(!ends_capture(&TrackEvent::Collected));
    assert_eq!(track_event_command(&TrackEvent::Idle), None);
}

#[test]
fn floating_request_sends_command_first_and_keeps_first_five() {
    let (cmd, mut c) = FloatingGpsCollector::start_request();
    assert_eq!(cmd, encode_request_floating_gps_command());
    assert_eq!(cmd, vec![0x02, 0x02, 0x00]);
    for lat in [1.0, 2.0, 3.0, 4.0, 5.0, 6.0, 7.0] {
        for b in gps_link_frame(lat) {
            c.push_byte(b);
        }
    }
    assert!(c.is_complete());
    let v = c.finish().unwrap();
    assert_eq!(v, vec![sample(1.0), sample(2.0), sample(3.0), sample(4.0), sample(5.0)]);
}
