//! The decode engine's state machine: the decisions of the thread that
//! demuxes, decodes and fills the queues.
//!
//! The engine owns the media handle and reacts, once per loop iteration,
//! to the pending control event, to each decoded frame, and to the state
//! of its queues. The codec work itself — reading packets, decoding,
//! scaling, resampling, seeking the demuxer — is carried out by the
//! driving loop in the surrounding program, which performs whatever
//! `EngineAction` a step returns and feeds the results back in.
//!
//! After a seek the engine is in `Seeking`: frames whose presentation
//! time lies before the target are discarded, the first frame at or after
//! the target is emitted with `reseeked` set, and once video and audio
//! have both reached the target — their keyframes do not align — the
//! engine returns to `Running`.

use vstd::prelude::*;

use crate::event::ControlEvent;
use crate::media::MediaHandle;
use crate::media::ticks_to_us;

verus! {

/// Where the engine stands: decoding normally, discarding frames until a
/// seek target is reached, or terminated.
#[derive(Clone, Copy, PartialEq, Eq, Structural, Debug)]
pub enum EngineState {
    Running,
    Seeking,
    Stopped,
}

/// What the driving loop must do after the engine consumed an event.
/// A seek action asks it to reposition the demuxer, flush both decoders,
/// rebuild the resampler and clear its packet buffers.
#[derive(Clone, Copy, PartialEq, Eq, Structural, Debug)]
pub enum EngineAction {
    /// Keep decoding.
    Proceed,
    /// Tear the decode thread down.
    Terminate,
    /// Block until a new control event is set.
    AwaitResume,
    /// Seek the demuxer to the given media time in microseconds.
    SeekDemuxer(u64),
    /// Seek the demuxer to the first keyframe after the reference time.
    SeekNextKeyframe(u64),
    /// Seek the demuxer to the last keyframe before the reference time.
    SeekPrevKeyframe(u64),
}

/// What becomes of one decoded frame: discarded as part of the pre-target
/// tail of a seek, or emitted into its queue, with the flag that marks
/// the first frame after a seek reached its target.
#[derive(Clone, Copy, PartialEq, Eq, Structural, Debug)]
pub enum FrameDisposition {
    Discard,
    Emit(bool),
}

/// What one backpressure check tells the driving loop: do a unit of work,
/// sleep a short fixed interval because both output queues are full, or
/// finish because the stream is exhausted.
#[derive(Clone, Copy, PartialEq, Eq, Structural, Debug)]
pub enum PollStep {
    Work,
    Sleep,
    Finish,
}

/// The decode engine: the media handle it exclusively owns, its state,
/// and the per-stream progress of an ongoing seek.
pub struct DecodeEngine {
    pub media: MediaHandle,
    pub state: EngineState,
    /// The target of the ongoing seek, in microseconds; meaningful while
    /// `state` is `Seeking`.
    pub seek_target_us: u64,
    /// Whether a video frame at or after the target has been emitted.
    pub video_reached: bool,
    /// Whether an audio frame at or after the target has been emitted.
    pub audio_reached: bool,
}

impl DecodeEngine {
    pub open spec fn wf(self) -> bool {
        self.media.wf()
    }

    /// A frame's presentation time in microseconds, from video-stream
    /// ticks.
    pub open spec fn video_frame_time_us(self, pts: u64) -> int {
        ticks_to_us(pts, self.media.video_time_base_den)
    }

    /// An audio chunk's presentation time in microseconds, from
    /// audio-stream ticks.
    pub open spec fn audio_frame_time_us(self, pts: u64) -> int {
        ticks_to_us(pts, self.media.audio_time_base_den)
    }

    /// The engine after consuming one control event.
    pub open spec fn after_event(self, event: ControlEvent) -> DecodeEngine {
        match event {
            ControlEvent::Idle => self,
            ControlEvent::Pause => self,
            ControlEvent::Stop => DecodeEngine { state: EngineState::Stopped, ..self },
            ControlEvent::Seek(target_us) => DecodeEngine {
                state: EngineState::Seeking,
                seek_target_us: target_us,
                video_reached: false,
                audio_reached: false,
                ..self
            },
            ControlEvent::StepToNextKeyframe(_) => DecodeEngine {
                state: EngineState::Seeking,
                seek_target_us: 0,
                video_reached: false,
                audio_reached: false,
                ..self
            },
            ControlEvent::StepToPrevKeyframe(_) => DecodeEngine {
                state: EngineState::Seeking,
                seek_target_us: 0,
                video_reached: false,
                audio_reached: false,
                ..self
            },
        }
    }

    /// The action one control event asks of the driving loop.
    pub open spec fn event_action(self, event: ControlEvent) -> EngineAction {
        match event {
            ControlEvent::Idle => EngineAction::Proceed,
            ControlEvent::Pause => EngineAction::AwaitResume,
            ControlEvent::Stop => EngineAction::Terminate,
            ControlEvent::Seek(target_us) => EngineAction::SeekDemuxer(target_us),
            ControlEvent::StepToNextKeyframe(reference_us) => EngineAction::SeekNextKeyframe(
                reference_us,
            ),
            ControlEvent::StepToPrevKeyframe(reference_us) => EngineAction::SeekPrevKeyframe(
                reference_us,
            ),
        }
    }

    /// What becomes of a video frame with the given timestamp: while
    /// seeking, frames before the target are stale tail frames and are
    /// discarded; the first frame at or after the target carries the
    /// `reseeked` mark.
    pub open spec fn video_frame_disposition(self, pts: u64) -> FrameDisposition {
        match self.state {
            EngineState::Running => FrameDisposition::Emit(false),
            EngineState::Stopped => FrameDisposition::Discard,
            EngineState::Seeking => if self.video_frame_time_us(pts) < self.seek_target_us {
                FrameDisposition::Discard
            } else {
                FrameDisposition::Emit(!self.video_reached)
            },
        }
    }

    /// The engine after handling a video frame: the first video frame at
    /// or after the target marks video as reached, and once audio is
    /// reached too the engine returns to `Running`.
    pub open spec fn after_video_frame(self, pts: u64) -> DecodeEngine {
        if self.state is Seeking && self.video_frame_time_us(pts) >= self.seek_target_us {
            let reached = DecodeEngine { video_reached: true, ..self };
            if reached.audio_reached {
                DecodeEngine { state: EngineState::Running, ..reached }
            } else {
                reached
            }
        } else {
            self
        }
    }

    /// As `video_frame_disposition`, for the audio stream.
    pub open spec fn audio_frame_disposition(self, pts: u64) -> FrameDisposition {
        match self.state {
            EngineState::Running => FrameDisposition::Emit(false),
            EngineState::Stopped => FrameDisposition::Discard,
            EngineState::Seeking => if self.audio_frame_time_us(pts) < self.seek_target_us {
                FrameDisposition::Discard
            } else {
                FrameDisposition::Emit(!self.audio_reached)
            },
        }
    }

    /// As `after_video_frame`, for the audio stream.
    pub open spec fn after_audio_frame(self, pts: u64) -> DecodeEngine {
        if self.state is Seeking && self.audio_frame_time_us(pts) >= self.seek_target_us {
            let reached = DecodeEngine { audio_reached: true, ..self };
            if reached.video_reached {
                DecodeEngine { state: EngineState::Running, ..reached }
            } else {
                reached
            }
        } else {
            self
        }
    }

    /// A fresh engine over an opened container, ready to run.
    pub fn new(media: MediaHandle) -> (engine: DecodeEngine)
        requires
            media.wf(),
        ensures
            engine.wf(),
            engine.media == media,
            engine.state == EngineState::Running,
            !engine.video_reached,
            !engine.audio_reached,
    {
        DecodeEngine {
            media,
            state: EngineState::Running,
            seek_target_us: 0,
            video_reached: false,
            audio_reached: false,
        }
    }

    /// Consumes one control event, stepping the state machine and telling
    /// the driving loop what to do. A seek resets both per-stream
    /// "target reached" flags; a keyframe step behaves as a seek whose
    /// landing point the demuxer chooses, so every frame decoded after
    /// the reposition is at or after it and the first one is emitted with
    /// `reseeked` set.
    pub fn on_event(&mut self, event: ControlEvent) -> (action: EngineAction)
        requires
            old(self).wf(),
        ensures
            final(self).wf(),
            *final(self) == old(self).after_event(event),
            action == old(self).event_action(event),
    {
        match event {
            ControlEvent::Idle => EngineAction::Proceed,
            ControlEvent::Pause => EngineAction::AwaitResume,
            ControlEvent::Stop => {
                self.state = EngineState::Stopped;
                EngineAction::Terminate
            },
            ControlEvent::Seek(target_us) => {
                self.state = EngineState::Seeking;
                self.seek_target_us = target_us;
                self.video_reached = false;
                self.audio_reached = false;
                EngineAction::SeekDemuxer(target_us)
            },
            ControlEvent::StepToNextKeyframe(reference_us) => {
                self.state = EngineState::Seeking;
                self.seek_target_us = 0;
                self.video_reached = false;
                self.audio_reached = false;
                EngineAction::SeekNextKeyframe(reference_us)
            },
            ControlEvent::StepToPrevKeyframe(reference_us) => {
                self.state = EngineState::Seeking;
                self.seek_target_us = 0;
                self.video_reached = false;
                self.audio_reached = false;
                EngineAction::SeekPrevKeyframe(reference_us)
            },
        }
    }

    /// Decides what becomes of one decoded video frame and steps the
    /// seek-progress state.
    pub fn on_video_frame(&mut self, pts: u64) -> (disposition: FrameDisposition)
        requires
            old(self).wf(),
        ensures
            final(self).wf(),
            *final(self) == old(self).after_video_frame(pts),
            disposition == old(self).video_frame_disposition(pts),
    {
        match self.state {
            EngineState::Running => FrameDisposition::Emit(false),
            EngineState::Stopped => FrameDisposition::Discard,
            EngineState::Seeking => {
                let frame_us: u128 = (pts as u128) * 1_000_000 / (
                self.media.video_time_base_den as u128);
                if frame_us < self.seek_target_us as u128 {
                    FrameDisposition::Discard
                } else {
                    let first = !self.video_reached;
                    self.video_reached = true;
                    if self.audio_reached {
                        self.state = EngineState::Running;
                    }
                    FrameDisposition::Emit(first)
                }
            },
        }
    }

    /// Decides what becomes of one decoded audio chunk and steps the
    /// seek-progress state.
    pub fn on_audio_frame(&mut self, pts: u64) -> (disposition: FrameDisposition)
        requires
            old(self).wf(),
        ensures
            final(self).wf(),
            *final(self) == old(self).after_audio_frame(pts),
            disposition == old(self).audio_frame_disposition(pts),
    {
        match self.state {
            EngineState::Running => FrameDisposition::Emit(false),
            EngineState::Stopped => FrameDisposition::Discard,
            EngineState::Seeking => {
                let frame_us: u128 = (pts as u128) * 1_000_000 / (
                self.media.audio_time_base_den as u128);
                if frame_us < self.seek_target_us as u128 {
                    FrameDisposition::Discard
                } else {
                    let first = !self.audio_reached;
                    self.audio_reached = true;
                    if self.video_reached {
                        self.state = EngineState::Running;
                    }
                    FrameDisposition::Emit(first)
                }
            },
        }
    }

    /// The backpressure decision taken once per loop iteration: finish
    /// when the demuxer is exhausted and nothing buffered or pending is
    /// left, sleep a short fixed interval instead of spinning while both
    /// output queues are full, otherwise do a unit of work.
    pub fn next_step(&self, video_full: bool, audio_full: bool, demux_exhausted: bool,
        buffers_empty: bool) -> (step: PollStep)
        ensures
            (step == PollStep::Finish) <==> (demux_exhausted && buffers_empty),
            (step == PollStep::Sleep) <==> (!(demux_exhausted && buffers_empty) && video_full
                && audio_full),
            (step == PollStep::Work) <==> (!(demux_exhausted && buffers_empty) && !(video_full
                && audio_full)),
    {
        if demux_exhausted && buffers_empty {
            PollStep::Finish
        } else if video_full && audio_full {
            PollStep::Sleep
        } else {
            PollStep::Work
        }
    }
}

/// The internal packet buffers are refilled from the demuxer only while
/// below their low-water mark and the demuxer still has packets, which
/// decouples read bursts from decode pacing.
pub fn should_refill(buffered: usize, low_water: usize, demux_exhausted: bool) -> (r: bool)
    ensures
        r <==> (!demux_exhausted && buffered < low_water),
{
    !demux_exhausted && buffered < low_water
}

/// The seek resynchronization protocol, on the video rail: while a seek
/// is under way and its target not yet reached, a frame is discarded
/// exactly when its presentation time lies before the target, and the
/// first frame at or after the target is emitted with `reseeked` set.
pub proof fn lemma_seek_discards_until_target(engine: DecodeEngine, pts: u64)
    requires
        engine.state is Seeking,
        !engine.video_reached,
    ensures
        (engine.video_frame_disposition(pts) is Discard) <==> engine.video_frame_time_us(pts)
            < engine.seek_target_us,
        engine.video_frame_time_us(pts) >= engine.seek_target_us
            ==> engine.video_frame_disposition(pts) == FrameDisposition::Emit(true),
{
}

/// The first emitted frame lands within one inter-frame gap of the seek
/// target: when the frame before it was still discarded, the target lies
/// strictly between the two frames' presentation times, so the emitted
/// frame is early by less than the distance between consecutive decoded
/// frames — one frame duration, when the decoder emits every frame.
pub proof fn lemma_first_emitted_frame_is_near_target(engine: DecodeEngine, prev_pts: u64,
    pts: u64)
    requires
        engine.state is Seeking,
        !engine.video_reached,
        engine.video_frame_disposition(prev_pts) is Discard,
        engine.video_frame_disposition(pts) == FrameDisposition::Emit(true),
    ensures
        engine.video_frame_time_us(prev_pts) < engine.seek_target_us <= engine.video_frame_time_us(
            pts),
        engine.video_frame_time_us(pts) - engine.seek_target_us < engine.video_frame_time_us(pts)
            - engine.video_frame_time_us(prev_pts),
{
}

/// The seek ends only when both rails have reached the target: handling
/// a video frame at or after the target returns the engine to `Running`
/// exactly when audio had already reached it.
pub proof fn lemma_seek_completes_when_both_reached(engine: DecodeEngine, pts: u64)
    requires
        engine.state is Seeking,
        engine.video_frame_time_us(pts) >= engine.seek_target_us,
    ensures
        engine.after_video_frame(pts).video_reached,
        engine.after_video_frame(pts).state is Running <==> engine.audio_reached,
{
}

} // verus!
