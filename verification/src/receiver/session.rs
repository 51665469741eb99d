//! A logging session's decisions: cutting the byte stream into COBS frames,
//! decoding them, and collecting GPS samples for a track capture.

use std::collections::VecDeque;
use vstd::prelude::*;
use crate::cobs_frame::{cobs_decode, cobs_decoding, CobsError};
use super::types::{decode_outcome, error_matches, parse_message, CarPosition, DecodedMessage, MessageType, ParserError};

verus! {

/// Room given to the COBS decoder for one frame.
pub const COBS_DECODED_BUFFER_SIZE: usize = 128;

/// Number of GPS samples averaged for one track-capture point.
pub const TRACK_CAPTURE_NUM_GPS: usize = 5;

/// A capture is abandoned when its samples have not all arrived this long
/// (milliseconds) after it started.
pub const TRACK_CAPTURE_TIMEOUT_MS: u64 = 5000;

/// The I/O error a byte source reports.
#[verifier::external_type_specification]
#[verifier::external_body]
pub struct ExIoError(std::io::Error);

/// Source of bytes (serial with timeout, or stdin). `None` when no byte is
/// available right now (a timeout) or at the end of input.
pub trait ByteSource {
    fn next_byte(&mut self) -> Option<std::io::Result<u8>>;
}

/// Cuts a byte stream into frames at each 0x00.
pub struct FrameAssembler {
    pending: VecDeque<u8>,
}

/// One step of frame assembly: the new pending bytes and the completed frame, if any.
pub open spec fn assemble_step(pending: Seq<u8>, byte: u8) -> (Seq<u8>, Option<Seq<u8>>) {
    if byte == 0 {
        (Seq::empty(), Some(pending))
    } else {
        (pending.push(byte), None)
    }
}

/// Feeding a run of bytes: the pending bytes left and the frames completed, in order.
pub open spec fn assemble_all(pending: Seq<u8>, bytes: Seq<u8>) -> (Seq<u8>, Seq<Seq<u8>>)
    decreases bytes.len(),
{
    if bytes.len() == 0 {
        (pending, Seq::empty())
    } else {
        let (p1, f1) = assemble_step(pending, bytes[0]);
        let (p2, fs) = assemble_all(p1, bytes.drop_first());
        match f1 {
            Some(f) => (p2, seq![f] + fs),
            None => (p2, fs),
        }
    }
}

impl FrameAssembler {
    /// The bytes received since the last delimiter.
    pub closed spec fn pending(&self) -> Seq<u8> {
        self.pending@
    }

    /// An assembler with nothing received.
    pub fn new() -> (a: FrameAssembler)
        ensures
            a.pending() == Seq::<u8>::empty(),
    {
        FrameAssembler { pending: VecDeque::new() }
    }

    /// Feeds one byte; a 0x00 completes the pending frame, which is returned
    /// without its delimiter.
    pub fn push(&mut self, byte: u8) -> (r: Option<Vec<u8>>)
        ensures
            (final(self).pending(), match r { Some(f) => Some(f@), None => None })
                == assemble_step(old(self).pending(), byte),
    {
        if byte == 0 {
            let mut frame: Vec<u8> = Vec::new();
            let n = self.pending.len();
            let mut i: usize = 0;
            while i < n
                invariant
                    n == self.pending@.len(),
                    self.pending@ == old(self).pending@,
                    i <= n,
                    frame@ == self.pending@.subrange(0, i as int),
                decreases n - i,
            {
                frame.push(self.pending[i]);
                i = i + 1;
            }
            self.pending.clear();
            assert(frame@ =~= old(self).pending@);
            Some(frame)
        } else {
            self.pending.push_back(byte);
            None
        }
    }
}

/// Feeding the link frame of a message (its COBS encoding, which holds no 0x00,
/// then the delimiter) to an assembler with nothing pending completes exactly
/// one frame, the encoding, and leaves nothing pending.
pub proof fn lemma_assemble_one_frame(enc: Seq<u8>)
    requires
        forall|i: int| 0 <= i < enc.len() ==> enc[i] != 0u8,
    ensures
        assemble_all(Seq::empty(), enc.push(0u8)) == (Seq::<u8>::empty(), seq![enc]),
{
    let one = seq![0u8];
    lemma_assemble_nonzero_run(Seq::empty(), enc, one);
    assert(one.drop_first() =~= Seq::<u8>::empty());
    assert(assemble_all(Seq::<u8>::empty(), Seq::<u8>::empty()) == (Seq::<u8>::empty(), Seq::<Seq<u8>>::empty()));
    assert(seq![enc] + Seq::<Seq<u8>>::empty() =~= seq![enc]);
    assert(assemble_all(enc, one) == (Seq::<u8>::empty(), seq![enc]));
    assert(Seq::<u8>::empty() + enc =~= enc);
    assert(enc + one =~= enc.push(0u8));
}

/// A run of non-zero bytes only grows the pending frame.
proof fn lemma_assemble_nonzero_run(pending: Seq<u8>, run: Seq<u8>, rest: Seq<u8>)
    requires
        forall|i: int| 0 <= i < run.len() ==> run[i] != 0u8,
    ensures
        assemble_all(pending, run + rest) == assemble_all(pending + run, rest),
    decreases run.len(),
{
    if run.len() == 0 {
        assert(run + rest =~= rest);
        assert(pending + run =~= pending);
    } else {
        assert((run + rest).drop_first() =~= run.drop_first() + rest);
        assert((run + rest)[0] == run[0]);
        lemma_assemble_nonzero_run(pending.push(run[0]), run.drop_first(), rest);
        assert(pending.push(run[0]) + run.drop_first() =~= pending + run);
    }
}

/// What became of one completed frame.
#[derive(Debug, Clone)]
pub enum FrameOutcome {
    /// The frame was not valid COBS.
    CobsError(CobsError),
    /// The frame decoded but its message could not be parsed.
    ParseError(ParserError),
    /// A decoded message.
    Message(DecodedMessage),
}

/// Decodes one completed frame (delimiter stripped) and parses its message.
pub fn decode_frame(frame: &[u8]) -> (r: FrameOutcome)
    ensures
        r is CobsError <==> (cobs_decoding(frame@) is None || cobs_decoding(frame@).unwrap().len() > COBS_DECODED_BUFFER_SIZE),
        r matches FrameOutcome::Message(m) ==> (cobs_decoding(frame@) matches Some(b) && decode_outcome(b) == Ok::<DecodedMessage, super::types::DecodeFailure>(m)),
        r matches FrameOutcome::ParseError(e) ==> (cobs_decoding(frame@) matches Some(b) && decode_outcome(b) matches Err(f) && error_matches(e, f)),
        r matches FrameOutcome::CobsError(e) ==> (e == CobsError::EmptyFrame <==> frame@.len() == 0),
{
    match cobs_decode(frame, COBS_DECODED_BUFFER_SIZE) {
        Ok(decoded) => match parse_message(decoded.as_slice()) {
            Ok(m) => FrameOutcome::Message(m),
            Err(e) => FrameOutcome::ParseError(e),
        },
        Err(e) => FrameOutcome::CobsError(e),
    }
}

/// The kind of an error row written for a bad frame.
#[derive(Debug, Clone, Copy, PartialEq, Eq, Structural)]
pub enum ErrorRowKind {
    /// The frame decoded but its message did not parse.
    Parse,
    /// The frame was not valid COBS.
    Cobs,
}

/// What the session writes for one completed frame.
#[derive(Debug, Clone, Copy, PartialEq, Eq, Structural)]
pub enum FrameAction {
    /// Nothing: a track-capture heartbeat only keeps the link alive.
    Skip,
    /// One row (and a console line) for the decoded message.
    LogMessage,
    /// One error row of the given kind.
    LogError(ErrorRowKind),
}

/// What the session writes for a frame's outcome: nothing for a
/// track-capture heartbeat, a message row for any other message, an error
/// row of the matching kind for a bad frame.
pub open spec fn frame_action_of(outcome: FrameOutcome) -> FrameAction {
    match outcome {
        FrameOutcome::Message(m) => if m.message_type == MessageType::TrackCaptureHeartbeat {
            FrameAction::Skip
        } else {
            FrameAction::LogMessage
        },
        FrameOutcome::ParseError(_) => FrameAction::LogError(ErrorRowKind::Parse),
        FrameOutcome::CobsError(_) => FrameAction::LogError(ErrorRowKind::Cobs),
    }
}

/// What the session writes for a frame's outcome.
pub fn frame_action(outcome: &FrameOutcome) -> (a: FrameAction)
    ensures
        a == frame_action_of(*outcome),
{
    match outcome {
        FrameOutcome::Message(m) => match m.message_type {
            MessageType::TrackCaptureHeartbeat => FrameAction::Skip,
            _ => FrameAction::LogMessage,
        },
        FrameOutcome::ParseError(_) => FrameAction::LogError(ErrorRowKind::Parse),
        FrameOutcome::CobsError(_) => FrameAction::LogError(ErrorRowKind::Cobs),
    }
}

/// The message type written in an error row: `Error` for a message that did
/// not parse, `COBS_Error` for a frame that was not valid COBS.
pub fn error_row_type(kind: ErrorRowKind) -> (t: &'static str)
    ensures
        kind == ErrorRowKind::Parse ==> t@ == "Error"@,
        kind == ErrorRowKind::Cobs ==> t@ == "COBS_Error"@,
{
    match kind {
        ErrorRowKind::Parse => "Error",
        ErrorRowKind::Cobs => "COBS_Error",
    }
}

/// Whether a message is logged to the console: all of them, or only those of
/// one node position.
pub fn should_log(msg: &DecodedMessage, only_log_node: Option<CarPosition>) -> (r: bool)
    ensures
        r == match only_log_node {
            Some(p) => msg.node_position == p,
            None => true,
        },
{
    match only_log_node {
        Some(p) => msg.node_position == p,
        None => true,
    }
}

/// One GPS fix as averaged for a track point: latitude and longitude (IEEE-754
/// doubles) and altitude (single), held as their bits.
#[derive(Debug, Clone, Copy, PartialEq, Eq, Structural)]
pub struct GpsSample {
    pub lat_bits: u64,
    pub lon_bits: u64,
    pub alt_bits: u32,
}

/// The GPS sample a decoded message carries, if it is a GPS message.
pub open spec fn sample_of(msg: DecodedMessage) -> Option<GpsSample> {
    match msg.gps {
        Some(g) => Some(GpsSample { lat_bits: g.lat_bits, lon_bits: g.lon_bits, alt_bits: g.alt_bits }),
        None => None,
    }
}

/// The GPS sample a decoded message carries, if it is a GPS message.
pub fn gps_sample(msg: &DecodedMessage) -> (r: Option<GpsSample>)
    ensures
        r == sample_of(*msg),
{
    match msg.gps {
        Some(g) => Some(GpsSample { lat_bits: g.lat_bits, lon_bits: g.lon_bits, alt_bits: g.alt_bits }),
        None => None,
    }
}

/// Milliseconds elapsed from `start` to `now`; a clock that appears to run
/// backwards counts as no time elapsed.
pub open spec fn elapsed_ms(start: u64, now: u64) -> int {
    if now >= start { now - start } else { 0 }
}

/// What a track capture did with one message.
#[derive(Debug, Clone)]
pub enum TrackEvent {
    /// Nothing to report.
    Idle,
    /// A sample was kept; more are needed.
    Collected,
    /// The samples did not all arrive in time; the kept ones were dropped.
    TimedOut { samples_dropped: usize },
    /// All samples arrived: these are to be averaged into one point.
    Captured(Vec<GpsSample>),
}

/// Collects the floating node's GPS samples for one track-capture point while
/// the capture flag is set.
pub struct TrackCapture {
    samples: Vec<GpsSample>,
    start_ms: Option<u64>,
}

impl TrackCapture {
    /// Samples kept so far.
    pub closed spec fn samples(&self) -> Seq<GpsSample> {
        self.samples@
    }

    /// When collecting started, if it has.
    pub closed spec fn start_ms(&self) -> Option<u64> {
        self.start_ms
    }

    /// Fewer than `TRACK_CAPTURE_NUM_GPS` samples are ever kept.
    pub closed spec fn wf(&self) -> bool {
        self.samples@.len() < TRACK_CAPTURE_NUM_GPS
    }

    /// A capture with nothing collected.
    pub fn new() -> (t: TrackCapture)
        ensures
            t.wf(),
            t.samples() == Seq::<GpsSample>::empty(),
            t.start_ms() is None,
    {
        TrackCapture { samples: Vec::new(), start_ms: None }
    }

    /// Handles one decoded message at time `now_ms` while `collecting` is the
    /// capture flag. Collecting starts the clock. A GPS sample received while
    /// collecting is dropped together with the kept ones when more than
    /// `TRACK_CAPTURE_TIMEOUT_MS` have passed since the start; otherwise it is
    /// kept, and the fifth completes the capture. Completion and timeout stop
    /// the clock; the caller then clears the flag.
    pub fn on_message(&mut self, sample: Option<GpsSample>, collecting: bool, now_ms: u64) -> (ev: TrackEvent)
        requires
            old(self).wf(),
        ensures
            final(self).wf(),
            ({
                let start = if collecting && old(self).start_ms() is None { Some(now_ms) } else { old(self).start_ms() };
                if sample is Some && collecting {
                    if elapsed_ms(start.unwrap(), now_ms) > TRACK_CAPTURE_TIMEOUT_MS {
                        &&& ev == TrackEvent::TimedOut { samples_dropped: old(self).samples().len() as usize }
                        &&& final(self).samples() == Seq::<GpsSample>::empty()
                        &&& final(self).start_ms() is None
                    } else if old(self).samples().len() + 1 >= TRACK_CAPTURE_NUM_GPS {
                        &&& ev matches TrackEvent::Captured(v) && v@ == old(self).samples().push(sample.unwrap())
                            && v@.len() == TRACK_CAPTURE_NUM_GPS
                        &&& final(self).samples() == Seq::<GpsSample>::empty()
                        &&& final(self).start_ms() is None
                    } else {
                        &&& ev is Collected
                        &&& final(self).samples() == old(self).samples().push(sample.unwrap())
                        &&& final(self).start_ms() == start
                    }
                } else {
                    &&& ev is Idle
                    &&& final(self).samples() == old(self).samples()
                    &&& final(self).start_ms() == start
                }
            }),
    {
        if collecting && self.start_ms.is_none() {
            self.start_ms = Some(now_ms);
        }
        match sample {
            Some(s) => {
                if !collecting {
                    return TrackEvent::Idle;
                }
                let start = self.start_ms.unwrap();
                let timed_out = now_ms >= start && now_ms - start > TRACK_CAPTURE_TIMEOUT_MS;
                if timed_out {
                    let got = self.samples.len();
                    self.samples = Vec::new();
                    self.start_ms = None;
                    TrackEvent::TimedOut { samples_dropped: got }
                } else {
                    self.samples.push(s);
                    if self.samples.len() >= TRACK_CAPTURE_NUM_GPS {
                        let mut all = Vec::new();
                        std::mem::swap(&mut all, &mut self.samples);
                        self.start_ms = None;
                        TrackEvent::Captured(all)
                    } else {
                        TrackEvent::Collected
                    }
                }
            },
            None => TrackEvent::Idle,
        }
    }
}

impl TrackCapture {
    /// Lets time pass without a GPS sample: while collecting, a capture whose
    /// start lies more than `TRACK_CAPTURE_TIMEOUT_MS` back times out and its
    /// kept samples are dropped, as on a late sample; otherwise nothing
    /// changes.
    pub fn on_tick(&mut self, collecting: bool, now_ms: u64) -> (ev: TrackEvent)
        requires
            old(self).wf(),
        ensures
            final(self).wf(),
            if collecting && (old(self).start_ms() matches Some(s) && elapsed_ms(s, now_ms) > TRACK_CAPTURE_TIMEOUT_MS) {
                &&& ev == TrackEvent::TimedOut { samples_dropped: old(self).samples().len() as usize }
                &&& final(self).samples() == Seq::<GpsSample>::empty()
                &&& final(self).start_ms() is None
            } else {
                &&& ev is Idle
                &&& final(self).samples() == old(self).samples()
                &&& final(self).start_ms() == old(self).start_ms()
            },
    {
        if collecting {
            if let Some(start) = self.start_ms {
                if now_ms >= start && now_ms - start > TRACK_CAPTURE_TIMEOUT_MS {
                    let got = self.samples.len();
                    self.samples = Vec::new();
                    self.start_ms = None;
                    return TrackEvent::TimedOut { samples_dropped: got };
                }
            }
        }
        TrackEvent::Idle
    }
}

/// Which IMU node feeds the attitude filter, and when its output is emitted.
pub struct AhrsSchedule {
    primary_mac: Option<[u8; 6]>,
    last_emit_ts_us: u64,
    period_us: u64,
}

/// What to do with one IMU message.
#[derive(Debug, Clone, Copy, PartialEq, Eq, Structural)]
pub enum ImuStep {
    /// The message comes from another node than the primary one.
    NotPrimary,
    /// Feed the filter (starting it first if `start_filter`), and write an
    /// output row afterwards if `emit`.
    Feed { start_filter: bool, emit: bool },
}

impl AhrsSchedule {
    /// The node whose IMU feeds the filter, once one has been seen.
    pub closed spec fn primary_mac(&self) -> Option<[u8; 6]> {
        self.primary_mac
    }

    /// Timestamp of the last emitted row (or of the first sample).
    pub closed spec fn last_emit_ts_us(&self) -> u64 {
        self.last_emit_ts_us
    }

    /// Microseconds between output rows.
    pub closed spec fn period_us(&self) -> u64 {
        self.period_us
    }

    /// A schedule emitting `ahrs_hz` rows per second.
    pub fn new(ahrs_hz: u32) -> (s: AhrsSchedule)
        requires
            ahrs_hz > 0,
        ensures
            s.primary_mac() is None,
            s.last_emit_ts_us() == 0,
            s.period_us() == 1_000_000int / (ahrs_hz as int),
    {
        AhrsSchedule { primary_mac: None, last_emit_ts_us: 0, period_us: 1_000_000 / (ahrs_hz as u64) }
    }

    /// Handles an IMU message from `mac` stamped `ts_us`. The first IMU node
    /// seen becomes the primary one and starts the filter; messages of the
    /// primary node feed it, and a row is emitted once at least one period has
    /// passed since the last (a timestamp earlier than the last counts as no time
    /// passed, so with a zero period it still emits).
    pub fn on_imu(&mut self, mac: [u8; 6], ts_us: u64) -> (step: ImuStep)
        ensures
            final(self).period_us() == old(self).period_us(),
            old(self).primary_mac() is None ==> final(self).primary_mac() == Some(mac),
            old(self).primary_mac() is Some ==> final(self).primary_mac() == old(self).primary_mac(),
            ({
                let last = if old(self).primary_mac() is None { ts_us } else { old(self).last_emit_ts_us() };
                if final(self).primary_mac() == Some(mac) {
                    let emit = (if ts_us >= last { ts_us - last } else { 0 }) >= old(self).period_us();
                    &&& step == ImuStep::Feed { start_filter: old(self).primary_mac() is None, emit }
                    &&& final(self).last_emit_ts_us() == (if emit { ts_us } else { last })
                } else {
                    &&& step == ImuStep::NotPrimary
                    &&& final(self).last_emit_ts_us() == last
                }
            }),
    {
        let mut start_filter = false;
        if self.primary_mac.is_none() {
            self.primary_mac = Some(mac);
            self.last_emit_ts_us = ts_us;
            start_filter = true;
        }
        let primary = self.primary_mac.unwrap();
        if crate::wire::mac_equal(&primary, &mac) {
            let emit = ts_us.saturating_sub(self.last_emit_ts_us) >= self.period_us;
            if emit {
                self.last_emit_ts_us = ts_us;
            }
            ImuStep::Feed { start_filter, emit }
        } else {
            ImuStep::NotPrimary
        }
    }
}

} // verus!
