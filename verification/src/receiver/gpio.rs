//! Decisions of the GPIO-controlled logging service: when a session runs,
//! whether it includes the attitude output, when video starts and stops, and
//! the track-capture edges.

use vstd::prelude::*;

verus! {

/// Levels of the service's five inputs.
#[derive(Debug, Clone, Copy, PartialEq, Eq, Structural)]
pub struct GpioLevels {
    /// BCM 11: raw logging.
    pub init: bool,
    /// BCM 19: logging with the attitude output.
    pub post: bool,
    /// BCM 26: video recording.
    pub video: bool,
    /// BCM 10: track capture armed (a new track file while high).
    pub track_arm: bool,
    /// BCM 9: a rising edge captures a location.
    pub track_capture: bool,
}

/// Whether a logging session runs: raw or attitude logging requested.
pub fn session_active(levels: &GpioLevels) -> (r: bool)
    ensures
        r == (levels.init || levels.post),
{
    levels.init || levels.post
}

/// Whether the session writes the attitude output.
pub fn with_ahrs(levels: &GpioLevels) -> (r: bool)
    ensures
        r == levels.post,
{
    levels.post
}

/// What to do with the video recording.
#[derive(Debug, Clone, Copy, PartialEq, Eq, Structural)]
pub enum VideoAction {
    Start,
    Stop,
    Nothing,
}

/// The video input high while not recording starts it; low while recording
/// stops it.
pub fn video_action(video_high: bool, recording: bool) -> (a: VideoAction)
    ensures
        a == (if video_high && !recording {
            VideoAction::Start
        } else if !video_high && recording {
            VideoAction::Stop
        } else {
            VideoAction::Nothing
        }),
{
    if video_high && !recording {
        VideoAction::Start
    } else if !video_high && recording {
        VideoAction::Stop
    } else {
        VideoAction::Nothing
    }
}

/// An edge of the track-arm input.
#[derive(Debug, Clone, Copy, PartialEq, Eq, Structural)]
pub enum ArmEdge {
    /// Rising: open a new track file and tell the bridge.
    Armed,
    /// Falling: tell the bridge the track ended.
    Ended,
    Unchanged,
}

/// The edge seen when the arm input goes from `prev` to `level`.
pub open spec fn arm_edge_of(prev: bool, level: bool) -> ArmEdge {
    if level && !prev {
        ArmEdge::Armed
    } else if !level && prev {
        ArmEdge::Ended
    } else {
        ArmEdge::Unchanged
    }
}

/// Whether the capture input going from `prev` to `level` captures a
/// location, given whether a track file is open.
pub open spec fn capture_of(prev: bool, level: bool, track_open: bool) -> bool {
    level && !prev && track_open
}

/// The previous levels of the track inputs, for edge detection.
#[derive(Debug, Clone, Copy, PartialEq, Eq, Structural)]
pub struct TrackInputs {
    pub prev_arm: bool,
    pub prev_capture: bool,
}

impl TrackInputs {
    /// Both inputs low.
    pub fn new() -> (t: TrackInputs)
        ensures
            t == (TrackInputs { prev_arm: false, prev_capture: false }),
    {
        TrackInputs { prev_arm: false, prev_capture: false }
    }

    /// The edge of the arm input, which is remembered.
    pub fn arm_edge(&mut self, arm_high: bool) -> (e: ArmEdge)
        ensures
            e == arm_edge_of(old(self).prev_arm, arm_high),
            final(self).prev_arm == arm_high,
            final(self).prev_capture == old(self).prev_capture,
    {
        let e = if arm_high && !self.prev_arm {
            ArmEdge::Armed
        } else if !arm_high && self.prev_arm {
            ArmEdge::Ended
        } else {
            ArmEdge::Unchanged
        };
        self.prev_arm = arm_high;
        e
    }

    /// Whether a location is captured: a rising edge of the capture input
    /// while a track file is open. The level is remembered.
    pub fn capture_requested(&mut self, capture_high: bool, track_open: bool) -> (r: bool)
        ensures
            r == capture_of(old(self).prev_capture, capture_high, track_open),
            final(self).prev_capture == capture_high,
            final(self).prev_arm == old(self).prev_arm,
    {
        let r = capture_high && !self.prev_capture && track_open;
        self.prev_capture = capture_high;
        r
    }
}

/// A level held over two reads gives no second edge: the arm input does not
/// re-arm or re-end, and the capture input does not capture again.
pub proof fn law_held_level_gives_no_edge(level: bool, track_open: bool)
    ensures
        arm_edge_of(level, level) == ArmEdge::Unchanged,
        !capture_of(level, level, track_open),
{
}

} // verus!
