use vehicle_daq::board::aircomm::message::{HeartbeatData, SensorMessage, SensorPayload};
use vehicle_daq::board::bridge::{BridgeAction, BridgeState};
use vehicle_daq::board::hmi::neopixel::{frame_pulses, scaled_color, Color, PulseCode, FRAME_LEN, T0H, T1H};
use vehicle_daq::board::hmi::{
    breath_brightness, expire_capture_phase, floating_led_action, gps_fix_recent, gps_rx_recent, hmi_period_us,
    imu_color, led_toggle_due, node_led_action, wheel, CapturePhase, HmiStateData, LedAction, acquiring_led_on,
};
use vehicle_daq::board::radio::{
    gps_staleness, heartbeat_due, heartbeat_wait_us, radio_task_for, EspNowMode, FloatingCapture, GpsStaleness,
    RadioTask,
};
use vehicle_daq::board::timebase::TimeBase;
use vehicle_daq::board::types::{CarPosition, GpsData, GpsTime, ImuData, NodeId};
use vehicle_daq::board::usb::protocol::{UsbCommand, MAX_USB_MESSAGE_SIZE, serialize_forwarded_message};
use vehicle_daq::board::usb::UsbError;

fn heartbeat_from(mac: [u8; 6], position: CarPosition) -> SensorMessage {
    SensorMessage {
        src_address: mac,
        timestamp_us: 1,
        payload: SensorPayload::Heartbeat(HeartbeatData { magic: 0x42, node_id: NodeId::new(position, 0) }),
    }
}

fn gps_from(mac: [u8; 6]) -> SensorMessage {
    SensorMessage {
        src_address: mac,
        timestamp_us: 2,
        payload: SensorPayload::Gps(GpsData {
            lat_bits: 1.5f64.to_bits(),
            lon_bits: 2.5f64.to_bits(),
            alt_bits: 0,
            speed_kts_bits: 0,
            heading: 0,
            utc_time: GpsTime { year: 0, month: 0, day: 0, hours: 0, minutes: 0, seconds: 0, millis: 0 },
        }),
    }
}

fn imu_from(mac: [u8; 6]) -> SensorMessage {
    SensorMessage {
        src_address: mac,
        timestamp_us: 3,
        payload: SensorPayload::Imu(ImuData {
            accel_x_bits: 0,
            accel_y_bits: 0,
            accel_z_bits: 0,
            gyro_x_bits: 0,
            gyro_y_bits: 0,
            gyro_z_bits: 0,
        }),
    }
}

#[test]
fn bridge_assigns_instances_in_discovery_order() {
    let mut b = BridgeState::new();
    let a = [1, 0, 0, 0, 0, 1];
    let c = [1, 0, 0, 0, 0, 2];
    let d = [1, 0, 0, 0, 0, 3];
    b.on_air_message(&heartbeat_from(a, CarPosition::FrontLeft), 10);
    b.on_air_message(&heartbeat_from(c, CarPosition::FrontLeft), 11);
    b.on_air_message(&heartbeat_from(d, CarPosition::Roof), 12);
    assert_eq!(b.node_id_for(&a), NodeId::new(CarPosition::FrontLeft, 0));
    assert_eq!(b.node_id_for(&c), NodeId::new(CarPosition::FrontLeft, 1));
    assert_eq!(b.node_id_for(&d), NodeId::new(CarPosition::Roof, 0));
    assert_eq!(b.node_id_for(&[9; 6]), NodeId::new(CarPosition::Custom, 0));
}

#[test]
fn bridge_repeated_heartbeat_is_stable_and_position_change_reassigns() {
    let mut b = BridgeState::new();
    let a = [2; 6];
    b.on_heartbeat(a, CarPosition::Left);
    b.on_heartbeat(a, CarPosition::Left);
    assert_eq!(b.node_id_for(&a), NodeId::new(CarPosition::Left, 0));
    b.on_heartbeat(a, CarPosition::Right);
    assert_eq!(b.node_id_for(&a), NodeId::new(CarPosition::Right, 0));
    b.on_heartbeat(a, CarPosition::Left);
    assert_eq!(b.node_id_for(&a), NodeId::new(CarPosition::Left, 1));
}

#[test]
fn bridge_table_holds_sixteen_nodes() {
    let mut b = BridgeState::new();
    for i in 0..17u8 {
        b.on_heartbeat([i, 0, 0, 0, 0, 0], CarPosition::Center);
    }
    assert_eq!(b.node_id_for(&[15, 0, 0, 0, 0, 0]), NodeId::new(CarPosition::Center, 15));
    assert_eq!(b.node_id_for(&[16, 0, 0, 0, 0, 0]), NodeId::new(CarPosition::Custom, 0));
}

#[test]
fn bridge_forwards_with_assigned_id() {
    let mut b = BridgeState::new();
    let mac = [3; 6];
    let out = b.on_air_message(&heartbeat_from(mac, CarPosition::Roof), 500).unwrap();
    let mut expected = [0u8; MAX_USB_MESSAGE_SIZE];
    let n = serialize_forwarded_message(
        &mac,
        &NodeId::new(CarPosition::Roof, 0),
        500,
        &heartbeat_from(mac, CarPosition::Roof).payload,
        &mut expected,
    )
    .unwrap();
    assert_eq!(out, expected[..n].to_vec());
    assert_eq!(out[6], 9);
}

#[test]
fn bridge_floating_window_forwards_five_gps_from_first_sender() {
    let mut b = BridgeState::new();
    let mut hmi = HmiStateData::new();
    let mut tb = TimeBase::new();
    assert_eq!(b.on_command(UsbCommand::RequestFloatingGps, &mut hmi, &mut tb, 0, 0), BridgeAction::BroadcastRequestGpsCapture);
    assert_eq!(hmi.capture_led_phase, CapturePhase::RequestSent);
    b.on_gps_request_sent();
    assert_eq!(b.floating_gps_remaining(), 5);
    let floating = [5; 6];
    let other = [6; 6];
    assert!(b.on_air_message(&imu_from(other), 1).is_none());
    let first = gps_from(floating);
    assert!(b.on_air_message(&first, 1).is_some());
    b.on_forwarded(&first.payload);
    assert_eq!(b.floating_gps_mac(), Some(floating));
    assert!(b.on_air_message(&gps_from(other), 1).is_none());
    for _ in 0..4 {
        assert!(b.on_air_message(&first, 1).is_some());
        b.on_forwarded(&first.payload);
    }
    assert_eq!(b.floating_gps_remaining(), 0);
    assert_eq!(b.floating_gps_mac(), None);
    assert!(b.on_air_message(&imu_from(other), 1).is_some());
    assert_eq!(b.messages_forwarded(), 5);
}

#[test]
fn bridge_commands_drive_hmi_and_time() {
    let mut b = BridgeState::new();
    let mut hmi = HmiStateData::new();
    let mut tb = TimeBase::new();
    let a = b.on_command(UsbCommand::TimeSync { session_time_us: 5_000_000 }, &mut hmi, &mut tb, 1_000_000, 1000);
    assert_eq!(a, BridgeAction::BroadcastTimeSync { session_time_us: 5_000_000 });
    assert_eq!(b.timesync_count(), 1);
    assert!(tb.is_time_synced());
    assert_eq!(tb.synced_timestamp_us(1_000_000), 5_000_000);
    assert_eq!(tb.synced_timestamp_us(1_000_250), 5_000_250);
    assert_eq!(b.on_command(UsbCommand::ArmTrack, &mut hmi, &mut tb, 0, 0), BridgeAction::Nothing);
    assert!(hmi.track_armed);
    b.on_command(UsbCommand::EndTrack, &mut hmi, &mut tb, 0, 0);
    assert!(!hmi.track_armed);
    b.on_command(UsbCommand::CaptureSuccess, &mut hmi, &mut tb, 0, 2000);
    assert_eq!(hmi.capture_led_phase, CapturePhase::Success);
    assert_eq!(hmi.capture_phase_deadline_ms, Some(3000));
    b.on_command(UsbCommand::CaptureTimeout, &mut hmi, &mut tb, 0, 4000);
    assert_eq!(hmi.capture_led_phase, CapturePhase::Timeout);
    assert_eq!(hmi.capture_phase_deadline_ms, Some(5000));
}

#[test]
fn bridge_counts_write_errors_but_not_unready_host() {
    let mut b = BridgeState::new();
    b.on_write_error(UsbError::NotReady);
    assert_eq!(b.errors(), 0);
    b.on_write_error(UsbError::MessageTooLarge);
    assert_eq!(b.errors(), 1);
}

#[test]
fn timebase_before_and_after_sync() {
    let mut tb = TimeBase::new();
    assert!(!tb.is_time_synced());
    assert_eq!(tb.synced_timestamp_us(1234), 1234);
    tb.set_program_start(10_000);
    assert_eq!(tb.program_start_ms(), 10_000);
    assert_eq!(tb.elapsed_ms(10_250), 250);
    tb.apply_sync(100, 400);
    assert_eq!(tb.synced_timestamp_us(400), 100);
    assert_eq!(tb.synced_timestamp_us(500), 200);
    assert_eq!(tb.program_start_ms(), 10_000);
}

#[test]
fn wheel_colors() {
    assert_eq!(wheel(0), (255, 0, 0));
    assert_eq!(wheel(85), (0, 255, 0));
    assert_eq!(wheel(170), (0, 0, 255));
    assert_eq!(wheel(42), (129, 126, 0));
    for p in 0..=255u8 {
        let (r, g, b) = wheel(p);
        assert_eq!(r as u32 + g as u32 + b as u32, 255);
    }
}

#[test]
fn breathing_stays_between_quarter_and_full() {
    assert_eq!(breath_brightness(100, 0), 25);
    assert_eq!(breath_brightness(100, 1000), 100);
    for t in (0..4000u64).step_by(37) {
        let v = breath_brightness(200, t);
        assert!(v <= 200 && v >= 50);
    }
}

#[test]
fn colors_and_scaling() {
    assert_eq!(Color::Orange.to_rgb(), (255, 165, 0));
    assert_eq!(Color::all_colors().len(), 9);
    assert_eq!(Color::all_colors()[0], Color::Red);
    assert_eq!(scaled_color(Color::White, 255), Color::Custom(255, 255, 255));
    assert_eq!(scaled_color(Color::Orange, 10), Color::Custom(10, 6, 0));
    assert_eq!(scaled_color(Color::Green, 0), Color::Custom(0, 0, 0));
    assert_eq!(vehicle_daq::board::neopixel::Color::Purple.to_rgb(), (128, 0, 128));
}

#[test]
fn neopixel_frame_sends_grb_msb_first() {
    let f = frame_pulses(Color::Custom(0x80, 0x01, 0x00));
    assert_eq!(f.len(), FRAME_LEN);
    assert_eq!(f[0].length1, T0H);
    assert_eq!(f[7].length1, T1H);
    assert_eq!(f[8].length1, T1H);
    assert_eq!(f[9].length1, T0H);
    assert_eq!(f[16].length1, T0H);
    assert_eq!(f[25], PulseCode { level1_high: false, length1: 0, level2_high: false, length2: 0 });
}

#[test]
fn imu_color_by_age() {
    assert_eq!(imu_color(Some(1000), 1015), Color::Green);
    assert_eq!(imu_color(Some(1000), 1019), Color::Green);
    assert_eq!(imu_color(Some(1000), 1020), Color::Blue);
    assert_eq!(imu_color(Some(1000), 5000), Color::Blue);
    assert_eq!(imu_color(Some(1000), 10_999), Color::Blue);
    assert_eq!(imu_color(Some(1000), 11_000), Color::Red);
    assert_eq!(imu_color(Some(1000), 11_500), Color::Red);
    assert_eq!(imu_color(None, 0), Color::Red);
}

#[test]
fn gps_recency() {
    let mut s = HmiStateData::new();
    assert!(!gps_fix_recent(&s, 0));
    s.gps_fix = true;
    s.last_gps_ms = Some(1000);
    assert!(gps_fix_recent(&s, 4999));
    assert!(!gps_fix_recent(&s, 5000));
    s.last_gps_rx_ms = Some(100);
    assert!(gps_rx_recent(&s, 3000));
}

#[test]
fn node_led_patterns() {
    let mut s = HmiStateData::new();
    let mut blink = false;
    s.last_imu_ms = Some(100);
    assert_eq!(node_led_action(&s, 110, 10, &mut blink), LedAction::Show { color: Color::Green, brightness: 10 });
    assert!(blink);
    assert_eq!(node_led_action(&s, 110, 10, &mut blink), LedAction::Clear);
    s.last_gps_rx_ms = Some(100);
    assert_eq!(node_led_action(&s, 110, 10, &mut blink), LedAction::DoublePulse { color: Color::Green, brightness: 10 });
    s.gps_fix = true;
    s.last_gps_ms = Some(100);
    assert_eq!(node_led_action(&s, 1100, 10, &mut blink), LedAction::Show { color: Color::Blue, brightness: 9 });
    s.capture_led_phase = CapturePhase::RequestSent;
    assert_eq!(node_led_action(&s, 1100, 10, &mut blink), LedAction::Show { color: Color::Orange, brightness: 10 });
    s.capture_led_phase = CapturePhase::Timeout;
    s.capture_phase_deadline_ms = Some(2000);
    assert_eq!(node_led_action(&s, 1000, 10, &mut blink), LedAction::Show { color: Color::Custom(255, 0, 0), brightness: 10 });
}

#[test]
fn floating_led_patterns() {
    let mut s = HmiStateData::new();
    let mut blink = true;
    assert_eq!(floating_led_action(&s, 0, 50, &mut blink), LedAction::Clear);
    s.acquiring_gps_capture = true;
    assert_eq!(floating_led_action(&s, 0, 50, &mut blink), LedAction::AcquiringBlink { color: Color::Orange, brightness: 50 });
}

#[test]
fn capture_phase_expires_after_deadline() {
    let mut s = HmiStateData::new();
    s.capture_led_phase = CapturePhase::Success;
    s.capture_phase_deadline_ms = Some(3000);
    expire_capture_phase(&mut s, 2999);
    assert_eq!(s.capture_led_phase, CapturePhase::Success);
    expire_capture_phase(&mut s, 3000);
    assert_eq!(s.capture_led_phase, CapturePhase::Idle);
    assert_eq!(s.capture_phase_deadline_ms, None);
    s.capture_led_phase = CapturePhase::RequestSent;
    expire_capture_phase(&mut s, 10_000);
    assert_eq!(s.capture_led_phase, CapturePhase::RequestSent);
}

#[test]
fn hmi_tick_periods() {
    let mut s = HmiStateData::new();
    assert_eq!(hmi_period_us(&s, 0, 1), 1_000_000);
    s.track_armed = true;
    assert_eq!(hmi_period_us(&s, 0, 1), 250_000);
    s.capture_led_phase = CapturePhase::Success;
    assert_eq!(hmi_period_us(&s, 0, 1), 50_000);
    assert!(led_toggle_due(2000, 1000, 1000));
    assert!(!led_toggle_due(1999, 1000, 1000));
}

#[test]
fn radio_timing_and_modes() {
    assert_eq!(heartbeat_wait_us(250_000), 750_000);
    assert_eq!(heartbeat_wait_us(2_000_000), 0);
    assert!(heartbeat_due(1_000_000));
    assert!(!heartbeat_due(999_999));
    assert_eq!(radio_task_for(EspNowMode::Bridge, true), RadioTask::Bridge);
    assert_eq!(radio_task_for(EspNowMode::Bridge, false), RadioTask::Transceiver);
    assert_eq!(radio_task_for(EspNowMode::Sender, false), RadioTask::Sender);
}

#[test]
fn floating_capture_sends_at_most_five() {
    let mut hmi = HmiStateData::new();
    let mut c = FloatingCapture::start(&mut hmi);
    assert!(hmi.acquiring_gps_capture);
    let mut n = 0;
    while c.wants_sample() {
        c.on_sample(n % 2 == 0);
        n += 1;
    }
    assert_eq!(n, 5);
    assert_eq!(c.finish(&mut hmi), 3);
    assert!(!hmi.acquiring_gps_capture);
    let mut c2 = FloatingCapture::start(&mut hmi);
    c2.on_sample(true);
    c2.on_timeout();
    assert!(!c2.wants_sample());
    assert_eq!(c2.finish(&mut hmi), 1);
}

#[test]
fn gps_watchdog_levels() {
    assert_eq!(gps_staleness(None, 100), GpsStaleness::NeverParsed);
    assert_eq!(gps_staleness(Some(1000), 1500), GpsStaleness::Fresh);
    assert_eq!(gps_staleness(Some(1000), 2500), GpsStaleness::Stale { secs: 1 });
    assert_eq!(gps_staleness(Some(1000), 9000), GpsStaleness::Lost { secs: 8 });
}

#[test]
fn acquiring_feedback_timing() {
    assert!(acquiring_led_on(0));
    assert!(acquiring_led_on(49));
    assert!(acquiring_led_on(50));
    assert!(acquiring_led_on(59));
    assert!(!acquiring_led_on(60));
    assert!(!acquiring_led_on(69));
    assert!(acquiring_led_on(70));
    assert!(!acquiring_led_on(649));
    assert!(acquiring_led_on(650));
    assert!(acquiring_led_on(699));
}

#[test]
fn time_sync_offset_round_trip_and_flag() {
    let mut t = TimeBase::new();
    assert!(!t.is_time_synced());
    assert_eq!(t.synced_timestamp_us(500), 500);
    t.set_program_start(5);
    assert!(!t.is_time_synced());
    t.apply_sync(1000, 4000);
    assert!(t.is_time_synced());
    assert_eq!(t.synced_timestamp_us(4000), 1000);
    assert_eq!(t.synced_timestamp_us(5000), 2000);
    t.set_program_start(9);
    assert!(t.is_time_synced());
    t.apply_sync(u64::MAX, 0);
    assert_eq!(t.synced_timestamp_us(1), 0);
}
