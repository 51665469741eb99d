//! Human-machine interface decisions: which color and pattern the NeoPixel
//! shows for the node's IMU and GPS state, the track-capture feedback of the
//! bridge, and the acquisition feedback of the floating node.

pub mod neopixel;

use vstd::prelude::*;
use neopixel::{color_rgb, Color};

verus! {

/// Track-capture feedback phase of the bridge LED.
#[derive(Debug, Clone, Copy, PartialEq, Eq, Structural)]
pub enum CapturePhase {
    /// No feedback pending.
    Idle,
    /// A capture request was sent (orange).
    RequestSent,
    /// The capture succeeded (green for one second).
    Success,
    /// The capture timed out (rainbow for one second).
    Timeout,
}

/// State shared by the tasks that feed the HMI. Times are milliseconds of the
/// local clock.
#[derive(Debug, Clone, Copy, PartialEq, Eq, Structural)]
pub struct HmiStateData {
    pub last_imu_ms: Option<u64>,
    pub gps_fix: bool,
    pub last_gps_ms: Option<u64>,
    pub last_gps_rx_ms: Option<u64>,
    /// The floating node is collecting samples for a capture.
    pub acquiring_gps_capture: bool,
    /// Track capture is armed on the host (bridge).
    pub track_armed: bool,
    pub capture_led_phase: CapturePhase,
    pub capture_phase_deadline_ms: Option<u64>,
}

impl Default for HmiStateData {
    /// Nothing received yet, no capture in progress.
    fn default() -> (s: HmiStateData)
        ensures
            s == (HmiStateData {
                last_imu_ms: None,
                gps_fix: false,
                last_gps_ms: None,
                last_gps_rx_ms: None,
                acquiring_gps_capture: false,
                track_armed: false,
                capture_led_phase: CapturePhase::Idle,
                capture_phase_deadline_ms: None,
            }),
    {
        HmiStateData::new()
    }
}

impl HmiStateData {
    /// Nothing received yet, no capture in progress.
    pub fn new() -> (s: HmiStateData)
        ensures
            s == (HmiStateData {
                last_imu_ms: None,
                gps_fix: false,
                last_gps_ms: None,
                last_gps_rx_ms: None,
                acquiring_gps_capture: false,
                track_armed: false,
                capture_led_phase: CapturePhase::Idle,
                capture_phase_deadline_ms: None,
            }),
    {
        HmiStateData {
            last_imu_ms: None,
            gps_fix: false,
            last_gps_ms: None,
            last_gps_rx_ms: None,
            acquiring_gps_capture: false,
            track_armed: false,
            capture_led_phase: CapturePhase::Idle,
            capture_phase_deadline_ms: None,
        }
    }
}

/// Age of a timestamp at `now`; a timestamp after `now` counts as age zero.
pub open spec fn age(now: u64, ts: u64) -> int {
    if now >= ts { now - ts } else { 0 }
}

fn age_ms(now: u64, ts: u64) -> (r: u64)
    ensures
        r == age(now, ts),
{
    if now >= ts { now - ts } else { 0 }
}

/// Whether a timestamp is at most three whole seconds old.
pub open spec fn recent(now: u64, ts: Option<u64>) -> bool {
    match ts {
        Some(t) => age(now, t) / 1000 <= 3,
        None => false,
    }
}

fn is_recent(now: u64, ts: Option<u64>) -> (r: bool)
    ensures
        r == recent(now, ts),
{
    match ts {
        Some(t) => age_ms(now, t) / 1000 <= 3,
        None => false,
    }
}

/// GPS fix recent: a fix flagged and a GPS position at most three seconds old.
pub open spec fn gps_fix_recent_spec(s: HmiStateData, now: u64) -> bool {
    s.gps_fix && recent(now, s.last_gps_ms)
}

/// Whether the GPS has a recent fix.
pub fn gps_fix_recent(s: &HmiStateData, now: u64) -> (r: bool)
    ensures
        r == gps_fix_recent_spec(*s, now),
{
    s.gps_fix && is_recent(now, s.last_gps_ms)
}

/// Whether GPS bytes arrived in the last three seconds.
pub fn gps_rx_recent(s: &HmiStateData, now: u64) -> (r: bool)
    ensures
        r == recent(now, s.last_gps_rx_ms),
{
    is_recent(now, s.last_gps_rx_ms)
}

/// The color for the age of the last IMU sample: green under 20 ms, blue under
/// 10 s, red when older or absent.
pub open spec fn imu_color_spec(last_imu_ms: Option<u64>, now: u64) -> Color {
    match last_imu_ms {
        Some(t) => if age(now, t) < 20 {
            Color::Green
        } else if age(now, t) < 10_000 {
            Color::Blue
        } else {
            Color::Red
        },
        None => Color::Red,
    }
}

/// The color for the age of the last IMU sample.
pub fn imu_color(last_imu_ms: Option<u64>, now: u64) -> (c: Color)
    ensures
        c == imu_color_spec(last_imu_ms, now),
{
    match last_imu_ms {
        Some(t) => {
            let a = age_ms(now, t);
            if a < 20 {
                Color::Green
            } else if a < 10_000 {
                Color::Blue
            } else {
                Color::Red
            }
        },
        None => Color::Red,
    }
}

/// Brightness factor (out of 256) of the breathing animation at `now`: a
/// triangle over a 2 s period between 64 and 256.
pub open spec fn breath_factor(now_ms: u64) -> int {
    let phase = (now_ms % 2000) as int * 256 / 2000;
    if phase <= 128 { 64 + phase * 192 / 128 } else { 64 + (256 - phase) * 192 / 128 }
}

/// Breathing brightness at `now`: the brightness scaled by the breathing factor.
pub open spec fn breath_brightness_spec(brightness: u8, now_ms: u64) -> u8 {
    let v = brightness as int * breath_factor(now_ms) / 256;
    (if v > 255 { 255 } else { v }) as u8
}

/// Breathing brightness at `now`.
pub fn breath_brightness(brightness: u8, now_ms: u64) -> (r: u8)
    ensures
        r == breath_brightness_spec(brightness, now_ms),
{
    let breath_period_ms: u64 = 2000;
    let elapsed_ms = now_ms % breath_period_ms;
    let phase_256 = (elapsed_ms * 256 / breath_period_ms) as u32;
    let factor = if phase_256 <= 128 {
        64 + (phase_256 * 192) / 128
    } else {
        64 + ((256 - phase_256) * 192) / 128
    };
    assert(factor <= 256);
    assert(brightness as u32 * factor <= 255 * 256) by (nonlinear_arith)
        requires brightness <= 255, factor <= 256;
    let v = brightness as u32 * factor / 256;
    if v > 255 { 255 } else { v as u8 }
}

/// The breathing animation stays between a quarter of the brightness (rounded
/// down) and the full brightness.
pub proof fn law_breath_bounds(brightness: u8, now_ms: u64)
    ensures
        64 <= breath_factor(now_ms) <= 256,
        breath_brightness_spec(brightness, now_ms) <= brightness,
        breath_brightness_spec(brightness, now_ms) >= brightness as int * 64 / 256,
{
    let f = breath_factor(now_ms);
    assert(brightness as int * f <= brightness as int * 256) by (nonlinear_arith)
        requires f <= 256, brightness >= 0;
    assert(brightness as int * f >= brightness as int * 64) by (nonlinear_arith)
        requires f >= 64, brightness >= 0;
    assert(brightness as int * f / 256 >= brightness as int * 64 / 256) by (nonlinear_arith)
        requires brightness as int * f >= brightness as int * 64;
    assert(brightness as int * f / 256 <= brightness as int) by (nonlinear_arith)
        requires brightness as int * f <= brightness as int * 256;
}

/// Rainbow wheel: position 0..255 to a color whose channels sum to 255.
pub open spec fn wheel_spec(pos: u8) -> (u8, u8, u8) {
    if pos < 85 {
        ((255 - pos * 3) as u8, (pos * 3) as u8, 0)
    } else if pos < 170 {
        let p = pos - 85;
        (0, (255 - p * 3) as u8, (p * 3) as u8)
    } else {
        let p = pos - 170;
        ((p * 3) as u8, 0, (255 - p * 3) as u8)
    }
}

/// Rainbow wheel: position 0..255 to (r, g, b).
pub fn wheel(pos: u8) -> (rgb: (u8, u8, u8))
    ensures
        rgb == wheel_spec(pos),
{
    if pos < 85 {
        (255 - pos * 3, pos * 3, 0)
    } else if pos < 170 {
        let pos = pos - 85;
        (0, 255 - pos * 3, pos * 3)
    } else {
        let pos = pos - 170;
        (pos * 3, 0, 255 - pos * 3)
    }
}

/// Every wheel color has total intensity 255 and at most two channels lit.
pub proof fn law_wheel_intensity(pos: u8)
    ensures
        wheel_spec(pos).0 + wheel_spec(pos).1 + wheel_spec(pos).2 == 255,
        wheel_spec(pos).0 == 0 || wheel_spec(pos).1 == 0 || wheel_spec(pos).2 == 0,
{
}

/// What the NeoPixel does in one HMI tick.
#[derive(Debug, Clone, Copy, PartialEq, Eq, Structural)]
pub enum LedAction {
    /// Show a color at a brightness.
    Show { color: Color, brightness: u8 },
    /// Two short flashes (0.1 s on, 0.1 s off, 0.1 s on, 0.7 s off).
    DoublePulse { color: Color, brightness: u8 },
    /// Turn the LED off.
    Clear,
    /// Acquisition feedback: on and off as `acquiring_led_on` gives for the
    /// time since acquisition began.
    AcquiringBlink { color: Color, brightness: u8 },
}

/// Showing a color at a brightness.
pub open spec fn show(color: Color, brightness: u8) -> LedAction {
    LedAction::Show { color, brightness }
}

/// Double-pulsing a color at a brightness.
pub open spec fn double_pulse(color: Color, brightness: u8) -> LedAction {
    LedAction::DoublePulse { color, brightness }
}

/// Acquisition feedback in a color at a brightness.
pub open spec fn acquiring_blink(color: Color, brightness: u8) -> LedAction {
    LedAction::AcquiringBlink { color, brightness }
}

/// The state with its feedback phase back to idle.
pub open spec fn idle_phase(s: HmiStateData) -> HmiStateData {
    HmiStateData { capture_led_phase: CapturePhase::Idle, capture_phase_deadline_ms: None, ..s }
}

/// The state at `now`: a success or timeout feedback phase whose deadline has
/// passed is back to idle.
pub open spec fn after_expiry(s: HmiStateData, now: u64) -> HmiStateData {
    let expired = (s.capture_led_phase == CapturePhase::Success || s.capture_led_phase == CapturePhase::Timeout)
        && (s.capture_phase_deadline_ms matches Some(d) && now >= d);
    if expired {
        idle_phase(s)
    } else {
        s
    }
}

/// Ends a success or timeout feedback phase once its deadline has passed.
pub fn expire_capture_phase(s: &mut HmiStateData, now: u64)
    ensures
        *final(s) == after_expiry(*old(s), now),
{
    if s.capture_led_phase == CapturePhase::Success || s.capture_led_phase == CapturePhase::Timeout {
        if let Some(deadline) = s.capture_phase_deadline_ms {
            if now >= deadline {
                s.capture_led_phase = CapturePhase::Idle;
                s.capture_phase_deadline_ms = None;
            }
        }
    }
}

/// Tick period of the HMI loop in microseconds: 50 ms while a capture phase is
/// shown, four times the LED rate while track capture is armed, 25 ms while
/// breathing on a GPS fix, the LED rate otherwise.
pub fn hmi_period_us(s: &HmiStateData, now: u64, led_rate_hz: u32) -> (p: u64)
    requires
        0 < led_rate_hz <= u32::MAX / 4,
    ensures
        p as int == (if s.capture_led_phase != CapturePhase::Idle {
            50_000int
        } else if s.track_armed {
            1_000_000int / (4 * led_rate_hz as int)
        } else if gps_fix_recent_spec(*s, now) {
            25_000int
        } else {
            1_000_000int / (led_rate_hz as int)
        }),
{
    if s.capture_led_phase != CapturePhase::Idle {
        50_000
    } else if s.track_armed {
        1_000_000 / (led_rate_hz as u64 * 4)
    } else if gps_fix_recent(s, now) {
        25_000
    } else {
        1_000_000 / (led_rate_hz as u64)
    }
}

/// Rainbow position of the timeout feedback: time into its one-second phase,
/// mapped onto 0..255.
pub open spec fn timeout_wheel_pos(deadline: Option<u64>, now: u64) -> u8 {
    let d = match deadline { Some(d) => d, None => now };
    let start = if d >= 1000 { d - 1000 } else { 0 };
    ((age(now, start as u64) % 1000) * 256 / 1000) as u8
}

/// The NeoPixel action of a sensor node or bridge for one tick. A capture
/// phase overrides: orange after a request, green after success, the rainbow
/// after a timeout. Otherwise the IMU age picks the color and the GPS state the
/// pattern: breathing on a recent fix, a double pulse when GPS bytes arrive but
/// without fix, a slow blink (alternating ticks) otherwise.
pub fn node_led_action(s: &HmiStateData, now: u64, brightness: u8, slow_blink_on: &mut bool) -> (a: LedAction)
    ensures
        s.capture_led_phase == CapturePhase::RequestSent ==> a == show(Color::Orange, brightness) && *final(slow_blink_on) == *old(slow_blink_on),
        s.capture_led_phase == CapturePhase::Success ==> a == show(Color::Green, brightness) && *final(slow_blink_on) == *old(slow_blink_on),
        s.capture_led_phase == CapturePhase::Timeout ==> ({
            let rgb = wheel_spec(timeout_wheel_pos(s.capture_phase_deadline_ms, now));
            a == show(Color::Custom(rgb.0, rgb.1, rgb.2), brightness) && *final(slow_blink_on) == *old(slow_blink_on)
        }),
        s.capture_led_phase == CapturePhase::Idle ==> ({
            let color = imu_color_spec(s.last_imu_ms, now);
            if gps_fix_recent_spec(*s, now) {
                a == show(color, breath_brightness_spec(brightness, now)) && *final(slow_blink_on) == *old(slow_blink_on)
            } else if recent(now, s.last_gps_rx_ms) {
                a == double_pulse(color, brightness) && *final(slow_blink_on) == *old(slow_blink_on)
            } else {
                &&& *final(slow_blink_on) == !*old(slow_blink_on)
                &&& a == (if *final(slow_blink_on) { show(color, brightness) } else { LedAction::Clear })
            }
        }),
{
    match s.capture_led_phase {
        CapturePhase::RequestSent => LedAction::Show { color: Color::Orange, brightness },
        CapturePhase::Success => LedAction::Show { color: Color::Green, brightness },
        CapturePhase::Timeout => {
            let deadline = match s.capture_phase_deadline_ms {
                Some(d) => d,
                None => now,
            };
            let phase_start = if deadline >= 1000 { deadline - 1000 } else { 0 };
            let elapsed = age_ms(now, phase_start);
            let pos = ((elapsed % 1000) * 256 / 1000) as u8;
            let (r, g, b) = wheel(pos);
            LedAction::Show { color: Color::Custom(r, g, b), brightness }
        },
        CapturePhase::Idle => {
            let color = imu_color(s.last_imu_ms, now);
            if gps_fix_recent(s, now) {
                LedAction::Show { color, brightness: breath_brightness(brightness, now) }
            } else if gps_rx_recent(s, now) {
                LedAction::DoublePulse { color, brightness }
            } else {
                *slow_blink_on = !*slow_blink_on;
                if *slow_blink_on {
                    LedAction::Show { color, brightness }
                } else {
                    LedAction::Clear
                }
            }
        },
    }
}

/// The NeoPixel action of the floating (GPS-only) node for one tick: orange
/// acquisition feedback while collecting samples; otherwise green, breathing
/// on a recent fix, double pulse when GPS bytes arrive without fix, slow blink
/// otherwise.
pub fn floating_led_action(s: &HmiStateData, now: u64, brightness: u8, slow_blink_on: &mut bool) -> (a: LedAction)
    ensures
        s.acquiring_gps_capture ==> a == acquiring_blink(Color::Orange, brightness) && *final(slow_blink_on) == *old(slow_blink_on),
        !s.acquiring_gps_capture ==> (if gps_fix_recent_spec(*s, now) {
            a == show(Color::Green, breath_brightness_spec(brightness, now)) && *final(slow_blink_on) == *old(slow_blink_on)
        } else if recent(now, s.last_gps_rx_ms) {
            a == double_pulse(Color::Green, brightness) && *final(slow_blink_on) == *old(slow_blink_on)
        } else {
            &&& *final(slow_blink_on) == !*old(slow_blink_on)
            &&& a == (if *final(slow_blink_on) { show(Color::Green, brightness) } else { LedAction::Clear })
        }),
{
    if s.acquiring_gps_capture {
        return LedAction::AcquiringBlink { color: Color::Orange, brightness };
    }
    if gps_fix_recent(s, now) {
        LedAction::Show { color: Color::Green, brightness: breath_brightness(brightness, now) }
    } else if gps_rx_recent(s, now) {
        LedAction::DoublePulse { color: Color::Green, brightness }
    } else {
        *slow_blink_on = !*slow_blink_on;
        if *slow_blink_on {
            LedAction::Show { color: Color::Green, brightness }
        } else {
            LedAction::Clear
        }
    }
}

/// Acquisition feedback: solid for this long (ms) first.
pub const ACQUIRE_SOLID_MS: u64 = 50;
/// Then a rapid blink with this period (ms), that is 50 Hz, on for the first
/// half of each period.
pub const ACQUIRE_BLINK_PERIOD_MS: u64 = 20;
/// The rapid blink lasts at most this long (ms); an acquisition still going
/// on after it starts the feedback over.
pub const ACQUIRE_BLINK_MAX_MS: u64 = 600;

/// Whether the acquisition LED is lit `since_ms` after acquisition began:
/// solid for `ACQUIRE_SOLID_MS`, then blinking at `ACQUIRE_BLINK_PERIOD_MS`
/// for `ACQUIRE_BLINK_MAX_MS`, over again while acquisition goes on.
pub open spec fn acquiring_led_on_spec(since_ms: u64) -> bool {
    let t: int = since_ms as int % (ACQUIRE_SOLID_MS + ACQUIRE_BLINK_MAX_MS);
    t < ACQUIRE_SOLID_MS || (t - ACQUIRE_SOLID_MS) % (ACQUIRE_BLINK_PERIOD_MS as int) < ACQUIRE_BLINK_PERIOD_MS / 2
}

/// Whether the acquisition LED is lit `since_ms` after acquisition began.
pub fn acquiring_led_on(since_ms: u64) -> (on: bool)
    ensures
        on == acquiring_led_on_spec(since_ms),
{
    let t = since_ms % (ACQUIRE_SOLID_MS + ACQUIRE_BLINK_MAX_MS);
    t < ACQUIRE_SOLID_MS || (t - ACQUIRE_SOLID_MS) % ACQUIRE_BLINK_PERIOD_MS < ACQUIRE_BLINK_PERIOD_MS / 2
}

/// Whether the user LED is due to toggle: a full LED period has passed since the
/// last toggle.
pub fn led_toggle_due(now: u64, last_toggle: u64, period_ms: u64) -> (r: bool)
    ensures
        r == (age(now, last_toggle) >= period_ms),
{
    age_ms(now, last_toggle) >= period_ms
}

} // verus!
