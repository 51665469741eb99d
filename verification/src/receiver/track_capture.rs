//! Track capture commands to the bridge (one command byte, COBS-framed) and the
//! collection of the floating node's GPS samples for one captured point.

use vstd::prelude::*;
use crate::cobs_frame::{cobs_decoding, frame_message, framed};
use crate::board::usb::protocol::{usb_command_of, ForwardError, UsbCommand};
use super::session::{
    assemble_step, decode_frame, gps_sample, sample_of, FrameAssembler, FrameOutcome, GpsSample, TrackEvent,
    COBS_DECODED_BUFFER_SIZE,
};
use super::types::decode_outcome;

verus! {

/// Command byte: request a floating GPS capture.
pub const CMD_REQUEST_FLOATING_GPS: u8 = 0x02;
/// Bridge HMI command: track capture armed.
pub const CMD_ARM_TRACK: u8 = 0x03;
/// Bridge HMI command: track capture ended.
pub const CMD_END_TRACK: u8 = 0x04;
/// Bridge HMI command: a capture succeeded.
pub const CMD_CAPTURE_SUCCESS: u8 = 0x05;
/// Bridge HMI command: a capture timed out.
pub const CMD_CAPTURE_TIMEOUT: u8 = 0x06;

/// Builds a COBS-framed one-byte command (arm, end, success, timeout).
pub fn encode_bridge_hmi_command(cmd: u8) -> (r: Vec<u8>)
    ensures
        r@ == framed(seq![cmd]),
        r@.len() >= 1 && r@.last() == 0u8,
        forall|i: int| 0 <= i < r@.len() - 1 ==> r@[i] != 0u8,
        r@.len() <= 3,
        cobs_decoding(r@.drop_last()) == Some(seq![cmd]),
{
    let raw = [cmd];
    assert(raw@ =~= seq![cmd]);
    frame_message(raw.as_slice())
}

/// Builds the COBS-framed RequestFloatingGps command.
pub fn encode_request_floating_gps_command() -> (r: Vec<u8>)
    ensures
        r@ == framed(seq![CMD_REQUEST_FLOATING_GPS]),
        r@.len() >= 1 && r@.last() == 0u8,
        forall|i: int| 0 <= i < r@.len() - 1 ==> r@[i] != 0u8,
        r@.len() <= 3,
        cobs_decoding(r@.drop_last()) == Some(seq![CMD_REQUEST_FLOATING_GPS]),
{
    encode_bridge_hmi_command(CMD_REQUEST_FLOATING_GPS)
}

/// The bridge reads each one-byte command the receiver sends as the command of
/// the same meaning.
pub proof fn lemma_one_byte_commands_parse()
    ensures
        usb_command_of(seq![CMD_REQUEST_FLOATING_GPS]) == Ok::<UsbCommand, ForwardError>(UsbCommand::RequestFloatingGps),
        usb_command_of(seq![CMD_ARM_TRACK]) == Ok::<UsbCommand, ForwardError>(UsbCommand::ArmTrack),
        usb_command_of(seq![CMD_END_TRACK]) == Ok::<UsbCommand, ForwardError>(UsbCommand::EndTrack),
        usb_command_of(seq![CMD_CAPTURE_SUCCESS]) == Ok::<UsbCommand, ForwardError>(UsbCommand::CaptureSuccess),
        usb_command_of(seq![CMD_CAPTURE_TIMEOUT]) == Ok::<UsbCommand, ForwardError>(UsbCommand::CaptureTimeout),
{
}

/// The command the receiver sends the bridge when a track capture ends: a
/// completed capture reports success, a timed-out one a timeout; nothing is
/// sent otherwise.
pub open spec fn track_event_command_spec(ev: TrackEvent) -> Option<u8> {
    match ev {
        TrackEvent::Captured(_) => Some(CMD_CAPTURE_SUCCESS),
        TrackEvent::TimedOut { .. } => Some(CMD_CAPTURE_TIMEOUT),
        _ => None,
    }
}

/// The command for the bridge that a track-capture outcome calls for.
pub fn track_event_command(ev: &TrackEvent) -> (r: Option<u8>)
    ensures
        r == track_event_command_spec(*ev),
{
    match ev {
        TrackEvent::Captured(_) => Some(CMD_CAPTURE_SUCCESS),
        TrackEvent::TimedOut { .. } => Some(CMD_CAPTURE_TIMEOUT),
        _ => None,
    }
}

/// Whether a track-capture outcome ends the capture, so that the capture
/// flag is cleared: completion and timeout do.
pub fn ends_capture(ev: &TrackEvent) -> (r: bool)
    ensures
        r == (*ev is Captured || *ev is TimedOut),
{
    match ev {
        TrackEvent::Captured(_) => true,
        TrackEvent::TimedOut { .. } => true,
        _ => false,
    }
}

/// GPS samples averaged into one floating capture.
pub const NUM_GPS_SAMPLES: usize = 5;

/// The GPS sample a completed frame yields: a frame that decodes (within
/// the 128-byte buffer) into a GPS message.
pub open spec fn frame_gps_sample(frame: Seq<u8>) -> Option<GpsSample> {
    match cobs_decoding(frame) {
        Some(b) => if b.len() <= COBS_DECODED_BUFFER_SIZE {
            match decode_outcome(b) {
                Ok(m) => sample_of(m),
                Err(_) => None,
            }
        } else {
            None
        },
        None => None,
    }
}

/// A floating capture got no sample before its deadline.
#[derive(Debug, Clone, Copy, PartialEq, Eq, Structural)]
pub enum FloatingGpsError {
    /// No GPS samples received within timeout.
    NoSamples,
}

/// Reads the floating node's GPS samples from the bridge's stream after a
/// RequestFloatingGps command.
pub struct FloatingGpsCollector {
    assembler: FrameAssembler,
    samples: Vec<GpsSample>,
}

impl FloatingGpsCollector {
    /// The bytes received since the last delimiter.
    pub closed spec fn pending(&self) -> Seq<u8> {
        self.assembler.pending()
    }

    /// The samples collected so far.
    pub closed spec fn samples(&self) -> Seq<GpsSample> {
        self.samples@
    }

    /// At most `NUM_GPS_SAMPLES` samples are ever kept.
    pub closed spec fn wf(&self) -> bool {
        self.samples@.len() <= NUM_GPS_SAMPLES
    }

    /// Nothing received yet.
    pub fn new() -> (c: FloatingGpsCollector)
        ensures
            c.wf(),
            c.pending() == Seq::<u8>::empty(),
            c.samples() == Seq::<GpsSample>::empty(),
    {
        FloatingGpsCollector { assembler: FrameAssembler::new(), samples: Vec::new() }
    }

    /// Starts a floating GPS request: the command frame to send the bridge
    /// first, and a collector that has received nothing yet.
    pub fn start_request() -> (r: (Vec<u8>, FloatingGpsCollector))
        ensures
            r.0@ == framed(seq![CMD_REQUEST_FLOATING_GPS]),
            r.1.wf(),
            r.1.pending() == Seq::<u8>::empty(),
            r.1.samples() == Seq::<GpsSample>::empty(),
    {
        (encode_request_floating_gps_command(), FloatingGpsCollector::new())
    }

    /// Whether all samples arrived.
    pub fn is_complete(&self) -> (r: bool)
        ensures
            r == (self.samples().len() >= NUM_GPS_SAMPLES),
    {
        self.samples.len() >= NUM_GPS_SAMPLES
    }

    /// Takes one byte of the stream: a 0x00 completes a frame, and a frame
    /// that decodes into a GPS message adds its sample. Once all samples are
    /// in, the stream is no longer read: the byte is left alone.
    pub fn push_byte(&mut self, byte: u8)
        requires
            old(self).wf(),
        ensures
            final(self).wf(),
            old(self).samples().len() >= NUM_GPS_SAMPLES ==> final(self).pending() == old(self).pending()
                && final(self).samples() == old(self).samples(),
            old(self).samples().len() < NUM_GPS_SAMPLES ==> final(self).pending() == assemble_step(old(self).pending(), byte).0,
            old(self).samples().len() < NUM_GPS_SAMPLES ==> final(self).samples() == (match assemble_step(old(self).pending(), byte).1 {
                Some(f) => match frame_gps_sample(f) {
                    Some(s) => old(self).samples().push(s),
                    None => old(self).samples(),
                },
                None => old(self).samples(),
            }),
    {
        if self.samples.len() >= NUM_GPS_SAMPLES {
            return;
        }
        match self.assembler.push(byte) {
            Some(frame) => {
                match decode_frame(frame.as_slice()) {
                    FrameOutcome::Message(m) => {
                        match gps_sample(&m) {
                            Some(s) => self.samples.push(s),
                            None => {},
                        }
                    },
                    _ => {},
                }
            },
            None => {},
        }
    }

    /// The collected samples, to be averaged: the first ones to arrive, at
    /// most `NUM_GPS_SAMPLES` of them; an error when there are none.
    pub fn finish(self) -> (r: Result<Vec<GpsSample>, FloatingGpsError>)
        requires
            self.wf(),
        ensures
            r matches Ok(v) ==> 1 <= v@.len() <= NUM_GPS_SAMPLES,
            self.samples().len() == 0 ==> r == Err::<Vec<GpsSample>, FloatingGpsError>(FloatingGpsError::NoSamples),
            self.samples().len() > 0 ==> (r matches Ok(v) && v@ == self.samples()),
    {
        if self.samples.len() == 0 {
            Err(FloatingGpsError::NoSamples)
        } else {
            Ok(self.samples)
        }
    }
}

} // verus!
