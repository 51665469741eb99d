//! Timing decisions of the radio tasks: when heartbeats are due, how the
//! floating node answers a capture request, and how stale its GPS is.

use vstd::prelude::*;
use crate::board::hmi::{age, HmiStateData};
use crate::board::aircomm::message::SensorPayload;
use crate::board::timebase::{time_step, TimeBase, TimeOp};

verus! {

/// ESP-NOW operating mode of a board.
#[derive(Debug, Clone, Copy, PartialEq, Eq, Structural)]
pub enum EspNowMode {
    /// Transmits sensor data and heartbeats (sensor nodes).
    Sender,
    /// Receives messages and sends heartbeats (testing).
    Transceiver,
    /// Receives messages and forwards them to USB (bridge to the host).
    Bridge,
}

/// The radio task a board runs.
#[derive(Debug, Clone, Copy, PartialEq, Eq, Structural)]
pub enum RadioTask {
    Sender,
    Transceiver,
    Bridge,
}

/// The radio task for a mode: a bridge without USB serial falls back to
/// the transceiver.
pub fn radio_task_for(mode: EspNowMode, usb_available: bool) -> (t: RadioTask)
    ensures
        t == (match mode {
            EspNowMode::Sender => RadioTask::Sender,
            EspNowMode::Transceiver => RadioTask::Transceiver,
            EspNowMode::Bridge => if usb_available { RadioTask::Bridge } else { RadioTask::Transceiver },
        }),
{
    match mode {
        EspNowMode::Sender => RadioTask::Sender,
        EspNowMode::Transceiver => RadioTask::Transceiver,
        EspNowMode::Bridge => if usb_available { RadioTask::Bridge } else { RadioTask::Transceiver },
    }
}

/// Interval between two heartbeats, in microseconds.
pub const HEARTBEAT_INTERVAL_US: u64 = 1_000_000;

/// How long to wait for sensor data before the next heartbeat is due, after
/// `elapsed_us` since the last one.
pub fn heartbeat_wait_us(elapsed_us: u64) -> (w: u64)
    ensures
        w == (if elapsed_us >= HEARTBEAT_INTERVAL_US { 0 } else { HEARTBEAT_INTERVAL_US - elapsed_us }),
{
    if elapsed_us >= HEARTBEAT_INTERVAL_US {
        0
    } else {
        HEARTBEAT_INTERVAL_US - elapsed_us
    }
}

/// Whether a heartbeat is due `elapsed_us` after the last one.
pub fn heartbeat_due(elapsed_us: u64) -> (r: bool)
    ensures
        r == (elapsed_us >= HEARTBEAT_INTERVAL_US),
{
    elapsed_us >= HEARTBEAT_INTERVAL_US
}

/// GPS samples the floating node sends in answer to one request.
pub const FLOATING_NUM_SAMPLES: u32 = 5;

/// How long the floating node waits for each sample, in milliseconds.
pub const FLOATING_COLLECT_TIMEOUT_MS: u64 = 800;

/// Pause before collecting, so that the GPS task sees the capture mode and the
/// next GGA sentence arrives (10 Hz), in milliseconds.
pub const FLOATING_SETTLE_MS: u64 = 150;

/// The floating node's answer to one capture request: up to five samples,
/// each awaited for 800 ms; the first wait that times out ends it.
pub struct FloatingCapture {
    attempts: u32,
    sent: u32,
    timed_out: bool,
}

impl FloatingCapture {
    /// Samples received so far.
    pub closed spec fn received(&self) -> u32 {
        self.attempts
    }

    /// Samples sent successfully so far.
    pub closed spec fn sent_count(&self) -> u32 {
        self.sent
    }

    /// Whether a wait timed out.
    pub closed spec fn stopped(&self) -> bool {
        self.timed_out
    }

    /// Whether the capture is over: five samples received or a wait timed out.
    pub open spec fn finished(&self) -> bool {
        self.stopped() || self.received() >= FLOATING_NUM_SAMPLES
    }

    /// Starts answering a request: the HMI shows acquisition.
    pub fn start(hmi: &mut HmiStateData) -> (c: FloatingCapture)
        ensures
            c.received() == 0,
            c.sent_count() == 0,
            !c.stopped(),
            *final(hmi) == (HmiStateData { acquiring_gps_capture: true, ..*old(hmi) }),
    {
        hmi.acquiring_gps_capture = true;
        FloatingCapture { attempts: 0, sent: 0, timed_out: false }
    }

    /// Whether another sample is awaited.
    pub fn wants_sample(&self) -> (r: bool)
        ensures
            r == !self.finished(),
    {
        !self.timed_out && self.attempts < FLOATING_NUM_SAMPLES
    }

    /// A sample arrived and was sent (`sent_ok`) or failed to send.
    pub fn on_sample(&mut self, sent_ok: bool)
        requires
            !old(self).finished(),
        ensures
            final(self).received() == old(self).received() + 1,
            final(self).sent_count() == old(self).sent_count() + (if sent_ok { 1int } else { 0int }),
            final(self).stopped() == old(self).stopped(),
            final(self).sent_count() <= final(self).received() <= FLOATING_NUM_SAMPLES,
    {
        proof { use_type_invariant(&*self); }
        self.attempts = self.attempts + 1;
        if sent_ok {
            self.sent = self.sent + 1;
        }
    }

    /// The wait for a sample timed out: the capture ends.
    pub fn on_timeout(&mut self)
        ensures
            final(self).stopped(),
            final(self).received() == old(self).received(),
            final(self).sent_count() == old(self).sent_count(),
    {
        proof { use_type_invariant(&*self); }
        self.timed_out = true;
    }

    /// Ends the capture: the HMI stops showing acquisition. Returns the
    /// number of samples sent; zero means the receiver had no fix.
    pub fn finish(&self, hmi: &mut HmiStateData) -> (sent: u32)
        ensures
            sent == self.sent_count(),
            *final(hmi) == (HmiStateData { acquiring_gps_capture: false, ..*old(hmi) }),
    {
        hmi.acquiring_gps_capture = false;
        self.sent
    }

    /// Samples sent never outnumber the samples received, nor five.
    #[verifier::type_invariant]
    spec fn counts_ok(&self) -> bool {
        self.sent <= self.attempts <= FLOATING_NUM_SAMPLES
    }
}

/// How stale the floating node's GPS is.
#[derive(Debug, Clone, Copy, PartialEq, Eq, Structural)]
pub enum GpsStaleness {
    /// No GGA sentence parsed yet.
    NeverParsed,
    /// The last GGA sentence is less than a second old.
    Fresh,
    /// No GGA sentence for at least a second (whole seconds given).
    Stale { secs: u64 },
    /// No GGA sentence for at least five seconds (whole seconds given).
    Lost { secs: u64 },
}

/// How stale GPS is at `now_ms` when the last GGA sentence was parsed at
/// `last_gps_ms`.
pub open spec fn staleness_at(last_gps_ms: Option<u64>, now_ms: u64) -> GpsStaleness {
    match last_gps_ms {
        None => GpsStaleness::NeverParsed,
        Some(t) => {
            let a = age(now_ms, t);
            if a >= 5000 {
                GpsStaleness::Lost { secs: (a / 1000) as u64 }
            } else if a >= 1000 {
                GpsStaleness::Stale { secs: (a / 1000) as u64 }
            } else {
                GpsStaleness::Fresh
            }
        },
    }
}

/// The watchdog's verdict on the floating node's GPS.
pub fn gps_staleness(last_gps_ms: Option<u64>, now_ms: u64) -> (s: GpsStaleness)
    ensures
        s == staleness_at(last_gps_ms, now_ms),
{
    match last_gps_ms {
        None => GpsStaleness::NeverParsed,
        Some(t) => {
            let a = if now_ms >= t { now_ms - t } else { 0 };
            if a >= 5000 {
                GpsStaleness::Lost { secs: a / 1000 }
            } else if a >= 1000 {
                GpsStaleness::Stale { secs: a / 1000 }
            } else {
                GpsStaleness::Fresh
            }
        },
    }
}

/// A data node's handling of a message received from the bridge: a time
/// synchronization is applied at the local time it arrived (`local_us`); any
/// other message leaves the time base alone. Returns whether it applied one.
pub fn apply_received_timesync(tb: &mut TimeBase, payload: &SensorPayload, local_us: u64) -> (applied: bool)
    ensures
        applied == (*payload is TimeSync),
        payload matches SensorPayload::TimeSync(d) ==> final(tb).state()
            == time_step(old(tb).state(), TimeOp::ApplySync(d.session_time_us, local_us)),
        !(*payload is TimeSync) ==> final(tb).state() == old(tb).state(),
{
    match payload {
        SensorPayload::TimeSync(d) => {
            tb.apply_sync(d.session_time_us, local_us);
            true
        },
        _ => false,
    }
}

/// Whether a message received by the floating node asks it for GPS samples:
/// only a capture request starts a `FloatingCapture`; other messages (time
/// synchronization, heartbeats) are ignored.
pub fn is_capture_request(payload: &SensorPayload) -> (r: bool)
    ensures
        r == (*payload is RequestGpsCapture),
{
    match payload {
        SensorPayload::RequestGpsCapture => true,
        _ => false,
    }
}

} // verus!
