//! Decoded frames and the per-frame presentation decision.

use vstd::prelude::*;

verus! {

/// A decoded video frame: an owned pixel buffer at the output resolution,
/// its presentation timestamp in ticks of the video stream's time base,
/// and the flag marking the first frame emitted after a seek reached its
/// target. Created by the decode engine, consumed and destroyed by the
/// playback orchestrator.
pub struct FrameImage {
    /// Pixel data, one byte per channel, row by row.
    pub image: Vec<u8>,
    /// Presentation timestamp, in video-stream ticks. The decode side
    /// clamps a missing or negative container timestamp to zero.
    pub pts: u64,
    /// True on the first frame emitted once a seek reached its target.
    pub reseeked: bool,
}

/// What the orchestrator does with one frame on one tick: present it now,
/// hold it for a later tick because video runs ahead of the clock, or
/// discard it as stale.
#[derive(Clone, Copy, PartialEq, Eq, Structural, Debug)]
pub enum FrameAction {
    Wait,
    Render,
    Drop,
}

/// The clock-comparison tolerance: a frame whose presentation time lies
/// within this distance of the playback clock is presented or held, one
/// further away is stale.
pub const TOLERANCE_US: u64 = 300_000;

/// The presentation decision as a function of the frame's presentation
/// time and the clock's reading, both in microseconds: within tolerance
/// and not ahead of the clock renders, within tolerance but ahead waits,
/// outside tolerance drops.
pub open spec fn spec_frame_action(frame_time_us: int, play_time_us: int) -> FrameAction {
    if -(TOLERANCE_US as int) <= play_time_us - frame_time_us <= TOLERANCE_US as int {
        if frame_time_us <= play_time_us {
            FrameAction::Render
        } else {
            FrameAction::Wait
        }
    } else {
        FrameAction::Drop
    }
}

/// The tolerance-based clock comparison. The boundary law: the action is
/// `Render` iff `|p - f| <= tolerance` and `f <= p`, `Wait` iff
/// `|p - f| <= tolerance` and `f > p`, and `Drop` iff `|p - f| > tolerance`.
pub fn compare_time(frame_time_us: u64, play_time_us: u64) -> (action: FrameAction)
    ensures
        action == spec_frame_action(frame_time_us as int, play_time_us as int),
        (action == FrameAction::Render) <==> (abs_diff(frame_time_us as int, play_time_us as int)
            <= TOLERANCE_US && frame_time_us <= play_time_us),
        (action == FrameAction::Wait) <==> (abs_diff(frame_time_us as int, play_time_us as int)
            <= TOLERANCE_US && frame_time_us > play_time_us),
        (action == FrameAction::Drop) <==> abs_diff(frame_time_us as int, play_time_us as int)
            > TOLERANCE_US,
{
    let diff = if frame_time_us <= play_time_us {
        play_time_us - frame_time_us
    } else {
        frame_time_us - play_time_us
    };
    if diff <= TOLERANCE_US {
        if frame_time_us <= play_time_us {
            FrameAction::Render
        } else {
            FrameAction::Wait
        }
    } else {
        FrameAction::Drop
    }
}

/// The distance between two instants.
pub open spec fn abs_diff(a: int, b: int) -> int {
    if a <= b {
        b - a
    } else {
        a - b
    }
}

} // verus!
