//! The playback orchestrator: the state machine the control thread runs.
//!
//! The player owns the playback clock, the consumer end of the video
//! queue, the control-event mailbox to the decode thread, and the desired
//! state of the audio sink. Once per UI refresh tick `view` decides what
//! the next visible frame is: it pulls at most one frame, compares its
//! presentation time against the clock within a fixed tolerance, and
//! presents, holds or discards it. After a seek it discards the stale
//! pre-seek tail, and on the first frame marked `reseeked` it sets the
//! clock to that frame's presentation time so that audio and video start
//! together again.
//!
//! Control operations called in a state where they are meaningless — a
//! pause while stopped, a seek with nothing open — are no-ops, not
//! errors. Wall time enters as the `now_us` parameter, a reading of the
//! caller's monotonic clock in microseconds.

use vstd::prelude::*;

use crate::event::ControlEvent;
use crate::event::EventSlot;
use crate::frame::FrameAction;
use crate::frame::FrameImage;
use crate::frame::compare_time;
use crate::frame::spec_frame_action;
use crate::media::MediaHandle;
use crate::media::MediaProbe;
use crate::media::OpenError;
use crate::media::open_media;
use crate::media::probe_representable;
use crate::media::pts_to_us_sat;
use crate::media::ticks_to_us_sat;
use crate::queue::BoundedQueue;
use crate::timer::Timer;

verus! {

/// Whether the orchestrator pulls from the queues at all.
#[derive(Clone, Copy, PartialEq, Eq, Structural, Debug)]
pub enum PlayState {
    Playing,
    Paused,
    Stopped,
}

/// How many whole frames the video queue holds: about one second of
/// lookahead.
pub const VIDEO_QUEUE_CAPACITY: usize = 30;

/// What one `view` tick did: nothing because playback is stopped, nothing
/// because no frame was available, presented a frame, held one that runs
/// ahead of the clock, dropped a stale one, discarded a pre-seek tail
/// frame, or held the first reseeked frame while the audio sink has not
/// yet reported a fresh callback.
#[derive(Clone, Copy, PartialEq, Eq, Structural, Debug)]
pub enum ViewEvent {
    Inactive,
    NoFrame,
    Rendered,
    Held,
    Dropped,
    DiscardedTail,
    AwaitingAudio,
}

/// The playback orchestrator.
pub struct Player {
    pub state: PlayState,
    /// The opened container's description; the codec-side handle itself
    /// lives with the decode thread.
    pub media: Option<MediaHandle>,
    /// The playback clock.
    pub timer: Timer,
    /// Consumer end of the decoded-frame queue.
    pub video_queue: BoundedQueue<FrameImage>,
    /// A frame pulled but held because video runs ahead of the clock.
    pub frame_buf: Option<FrameImage>,
    /// The last presented frame.
    pub current: Option<FrameImage>,
    /// True from a seek request until the first reseeked frame is
    /// presented.
    pub is_seeking: bool,
    /// The single-slot mailbox to the decode thread.
    pub control: EventSlot,
    /// Whether the audio sink should be running; the shell mirrors this
    /// onto the hardware stream.
    pub sink_playing: bool,
}

/// A seek target clamped into the media's duration.
pub open spec fn spec_clamp_target(target_us: int, duration_us: int) -> int {
    if target_us < 0 {
        0
    } else if target_us > duration_us {
        duration_us
    } else {
        target_us
    }
}

impl Player {
    /// The player's invariant: the queue is well-formed, an opened media
    /// handle is well-formed, and without one the player is stopped and
    /// not seeking.
    pub open spec fn wf(self) -> bool {
        &&& self.video_queue.wf()
        &&& match self.media {
            Some(m) => m.wf(),
            None => true,
        }
        &&& self.media is None ==> self.state is Stopped && !self.is_seeking
    }

    /// Whether `view` pulls frames this tick: while playing, or while a
    /// seek is pending in any state.
    pub open spec fn pulls_frames(self) -> bool {
        self.state is Playing || self.is_seeking
    }

    /// The frame `view` examines this tick: the held frame if present,
    /// else the head of the video queue.
    pub open spec fn next_frame(self) -> Option<FrameImage> {
        if self.frame_buf is Some {
            self.frame_buf
        } else if self.video_queue@.len() > 0 {
            Some(self.video_queue@[0])
        } else {
            None
        }
    }

    /// The queue contents after `view` takes `next_frame`.
    pub open spec fn queue_after_take(self) -> Seq<FrameImage> {
        if self.frame_buf is Some {
            self.video_queue@
        } else {
            self.video_queue@.drop_first()
        }
    }

    /// The video stream's ticks per second.
    pub open spec fn video_den(self) -> u32 {
        self.media->0.video_time_base_den
    }

    /// A frame's presentation time in microseconds.
    pub open spec fn frame_time_us(self, frame: FrameImage) -> u64 {
        ticks_to_us_sat(frame.pts, self.video_den())
    }

    /// The total duration in microseconds, while a file is open.
    pub open spec fn spec_duration_us(self) -> int {
        self.media->0.spec_duration_us()
    }

    /// The player after `pause_play` at instant `now_us`.
    pub open spec fn spec_paused(self, now_us: u64) -> Player {
        if self.state is Playing {
            Player {
                state: PlayState::Paused,
                timer: self.timer.stopped_at(now_us),
                control: self.control.with_event(ControlEvent::Pause),
                sink_playing: false,
                ..self
            }
        } else {
            self
        }
    }

    /// The player after `resume_play` at instant `now_us`.
    pub open spec fn spec_resumed(self, now_us: u64) -> Player {
        if self.state is Paused {
            Player {
                state: PlayState::Playing,
                timer: self.timer.started_at(now_us),
                control: self.control.with_event(ControlEvent::Idle),
                sink_playing: true,
                ..self
            }
        } else {
            self
        }
    }

    /// The player after `start_play` at instant `now_us`.
    pub open spec fn spec_started(self, now_us: u64) -> Player {
        if self.state is Stopped && self.media is Some {
            Player {
                state: PlayState::Playing,
                timer: self.timer.started_at(now_us),
                control: self.control.with_event(ControlEvent::Idle),
                sink_playing: true,
                ..self
            }
        } else {
            self
        }
    }

    /// A player with nothing open: stopped, clock at zero, queues empty.
    pub fn new() -> (p: Player)
        ensures
            p.wf(),
            p.state is Stopped,
            p.media is None,
            !p.timer.running(),
            p.timer.accumulated() == 0,
            p.video_queue@ == Seq::<FrameImage>::empty(),
            p.video_queue.capacity() == VIDEO_QUEUE_CAPACITY,
            p.frame_buf is None,
            p.current is None,
            !p.is_seeking,
            p.control.pending() == ControlEvent::Idle,
            !p.sink_playing,
    {
        Player {
            state: PlayState::Stopped,
            media: None,
            timer: Timer::new(),
            video_queue: BoundedQueue::new(VIDEO_QUEUE_CAPACITY),
            frame_buf: None,
            current: None,
            is_seeking: false,
            control: EventSlot::new(),
            sink_playing: false,
        }
    }

    /// Opens a file from its probe: validates it, stores the media
    /// handle, wires a fresh queue and resets the clock. Playback is not
    /// started. On an error the player is left unchanged — the caller may
    /// pick another file.
    pub fn open(&mut self, probe: &MediaProbe) -> (r: Result<(), OpenError>)
        requires
            old(self).wf(),
            probe_representable(*probe),
        ensures
            final(self).wf(),
            r == Result::<(), OpenError>::Err(OpenError::NoSuchFile) <==> !probe.file_exists,
            r == Result::<(), OpenError>::Err(OpenError::NoVideoStream) <==> (probe.file_exists
                && probe.video_stream is None),
            r == Result::<(), OpenError>::Err(OpenError::NoAudioStream) <==> (probe.file_exists
                && probe.video_stream is Some && probe.audio_stream is None),
            r == Result::<(), OpenError>::Err(OpenError::UnsupportedCodec) <==> (probe.file_exists
                && probe.video_stream is Some && probe.audio_stream is Some
                && !probe.codec_supported),
            r is Ok <==> (probe.file_exists && probe.video_stream is Some
                && probe.audio_stream is Some && probe.codec_supported),
            r is Err ==> *final(self) == *old(self),
            r is Ok ==> {
                &&& final(self).media is Some
                &&& final(self).media->0.video_stream_ix == probe.video_stream->0.index
                &&& final(self).media->0.audio_stream_ix == probe.audio_stream->0.index
                &&& final(self).media->0.video_time_base_den == probe.video_stream->0.time_base_den
                &&& final(self).media->0.audio_time_base_den == probe.audio_stream->0.time_base_den
                &&& final(self).media->0.duration_ticks == probe.video_stream->0.duration_ticks
                &&& final(self).state is Stopped
                &&& !final(self).timer.running()
                &&& final(self).timer.accumulated() == 0
                &&& final(self).video_queue@ == Seq::<FrameImage>::empty()
                &&& final(self).video_queue.capacity() == VIDEO_QUEUE_CAPACITY
                &&& final(self).frame_buf is None
                &&& final(self).current is None
                &&& !final(self).is_seeking
                &&& final(self).control.pending() == ControlEvent::Idle
                &&& !final(self).sink_playing
            },
    {
        match open_media(probe) {
            Ok(handle) => {
                self.state = PlayState::Stopped;
                self.media = Some(handle);
                self.timer = Timer::new();
                self.video_queue = BoundedQueue::new(VIDEO_QUEUE_CAPACITY);
                self.frame_buf = None;
                self.current = None;
                self.is_seeking = false;
                self.control = EventSlot::new();
                self.sink_playing = false;
                Ok(())
            },
            Err(e) => Err(e),
        }
    }

    /// Begins playback of an opened file: `Stopped` becomes `Playing`,
    /// the clock starts, the decode thread is left free to produce and
    /// the audio sink is asked to run. Meaningless unless stopped with a
    /// file open.
    pub fn start_play(&mut self, now_us: u64)
        requires
            old(self).wf(),
        ensures
            final(self).wf(),
            *final(self) == old(self).spec_started(now_us),
    {
        if self.media.is_some() && self.state == PlayState::Stopped {
            self.state = PlayState::Playing;
            self.timer.start(now_us);
            self.control.set(ControlEvent::Idle);
            self.sink_playing = true;
        }
    }

    /// Pauses playback: the clock stops, the decode thread is told to
    /// block, the audio sink is asked to stop. Meaningless unless
    /// playing.
    pub fn pause_play(&mut self, now_us: u64)
        requires
            old(self).wf(),
        ensures
            final(self).wf(),
            *final(self) == old(self).spec_paused(now_us),
            old(self).state is Playing ==> final(self).timer.accumulated() == old(
                self).timer.time_at(now_us),
    {
        if self.state == PlayState::Playing {
            self.state = PlayState::Paused;
            self.timer.stop(now_us);
            self.control.set(ControlEvent::Pause);
            self.sink_playing = false;
        }
    }

    /// Resumes paused playback: the clock restarts from where it stood,
    /// the decode thread is woken, the audio sink is asked to run.
    /// Meaningless unless paused.
    pub fn resume_play(&mut self, now_us: u64)
        requires
            old(self).wf(),
        ensures
            final(self).wf(),
            *final(self) == old(self).spec_resumed(now_us),
    {
        if self.state == PlayState::Paused {
            self.state = PlayState::Playing;
            self.timer.start(now_us);
            self.control.set(ControlEvent::Idle);
            self.sink_playing = true;
        }
    }

    /// Stops playback: the clock and both frame buffers are reset, the
    /// queue is cleared and the decode thread is told to terminate,
    /// fire-and-forget.
    pub fn stop_play(&mut self)
        requires
            old(self).wf(),
        ensures
            final(self).wf(),
            final(self).state is Stopped,
            !final(self).timer.running(),
            final(self).timer.accumulated() == 0,
            final(self).video_queue@ == Seq::<FrameImage>::empty(),
            final(self).video_queue.capacity() == old(self).video_queue.capacity(),
            final(self).frame_buf is None,
            final(self).current is None,
            !final(self).is_seeking,
            final(self).control.pending() == ControlEvent::Stop,
            !final(self).sink_playing,
            final(self).media == old(self).media,
    {
        self.state = PlayState::Stopped;
        self.timer = Timer::new();
        self.video_queue.clear();
        self.frame_buf = None;
        self.current = None;
        self.is_seeking = false;
        self.control.set(ControlEvent::Stop);
        self.sink_playing = false;
    }

    /// Requests a seek: the target is clamped into `[0, duration]` and
    /// sent to the decode thread, the held frame and the video queue are
    /// discarded, and the audio sink is paused until the reseek
    /// completes. Meaningless while stopped or with nothing open.
    pub fn seek_to(&mut self, target_us: i64)
        requires
            old(self).wf(),
        ensures
            final(self).wf(),
            final(self).state == old(self).state,
            final(self).media == old(self).media,
            final(self).timer == old(self).timer,
            final(self).current == old(self).current,
            !(old(self).media is Some && !(old(self).state is Stopped)) ==> *final(self) == *old(
                self),
            old(self).media is Some && !(old(self).state is Stopped) ==> {
                &&& final(self).is_seeking
                &&& final(self).control.pending() == ControlEvent::Seek(
                    spec_clamp_target(target_us as int, old(self).spec_duration_us()) as u64)
                &&& final(self).frame_buf is None
                &&& final(self).video_queue@ == Seq::<FrameImage>::empty()
                &&& final(self).video_queue.capacity() == old(self).video_queue.capacity()
                &&& !final(self).sink_playing
            },
    {
        let duration_us = match &self.media {
            Some(m) => m.duration_us(),
            None => {
                return ;
            },
        };
        if self.state == PlayState::Stopped {
            return ;
        }
        let target = if target_us < 0 {
            0u64
        } else {
            let t = target_us as u64;
            if t > duration_us {
                duration_us
            } else {
                t
            }
        };
        self.request_seek(target);
    }

    /// Requests a seek relative to the current play time, as the skip
    /// back/forward controls do; the target is clamped into
    /// `[0, duration]` like an absolute seek. Meaningless while stopped
    /// or with nothing open.
    pub fn seek_by(&mut self, delta_us: i64, now_us: u64)
        requires
            old(self).wf(),
        ensures
            final(self).wf(),
            final(self).state == old(self).state,
            final(self).media == old(self).media,
            final(self).timer == old(self).timer,
            final(self).current == old(self).current,
            !(old(self).media is Some && !(old(self).state is Stopped)) ==> *final(self) == *old(
                self),
            old(self).media is Some && !(old(self).state is Stopped) ==> {
                &&& final(self).is_seeking
                &&& final(self).control.pending() == ControlEvent::Seek(
                    spec_clamp_target(old(self).timer.time_at(now_us) + delta_us,
                        old(self).spec_duration_us()) as u64)
                &&& final(self).frame_buf is None
                &&& final(self).video_queue@ == Seq::<FrameImage>::empty()
                &&& final(self).video_queue.capacity() == old(self).video_queue.capacity()
                &&& !final(self).sink_playing
            },
    {
        let duration_us = match &self.media {
            Some(m) => m.duration_us(),
            None => {
                return ;
            },
        };
        if self.state == PlayState::Stopped {
            return ;
        }
        let wanted: i128 = self.timer.current_time_us(now_us) as i128 + delta_us as i128;
        let target = if wanted < 0 {
            0u64
        } else if wanted > duration_us as i128 {
            duration_us
        } else {
            wanted as u64
        };
        self.request_seek(target);
    }

    /// The shared seek machinery: sends the clamped target, marks the
    /// seek pending, discards the held frame and the queue, and pauses
    /// the audio sink until the reseek completes.
    fn request_seek(&mut self, target_us: u64)
        requires
            old(self).wf(),
            old(self).media is Some,
        ensures
            final(self).wf(),
            *final(self) == (Player {
                is_seeking: true,
                control: old(self).control.with_event(ControlEvent::Seek(target_us)),
                frame_buf: None,
                video_queue: final(self).video_queue,
                sink_playing: false,
                ..*old(self)
            }),
            final(self).video_queue@ == Seq::<FrameImage>::empty(),
            final(self).video_queue.capacity() == old(self).video_queue.capacity(),
    {
        self.is_seeking = true;
        self.control.set(ControlEvent::Seek(target_us));
        self.frame_buf = None;
        self.video_queue.clear();
        self.sink_playing = false;
    }

    /// Steps to the first keyframe after the current time: pauses the
    /// clock and sends the step event with the current time as
    /// reference; frames then arrive reseeked, as after a seek.
    /// Meaningless while stopped or with nothing open.
    pub fn next_key(&mut self, now_us: u64)
        requires
            old(self).wf(),
        ensures
            final(self).wf(),
            !(old(self).media is Some && !(old(self).state is Stopped)) ==> *final(self) == *old(
                self),
            old(self).media is Some && !(old(self).state is Stopped) ==> {
                &&& final(self).timer == old(self).timer.stopped_at(now_us)
                &&& final(self).control.pending() == ControlEvent::StepToNextKeyframe(
                    old(self).timer.time_at(now_us))
                &&& final(self).is_seeking
                &&& final(self).frame_buf is None
                &&& final(self).video_queue@ == Seq::<FrameImage>::empty()
                &&& !final(self).sink_playing
            },
            final(self).state == old(self).state,
            final(self).media == old(self).media,
            final(self).current == old(self).current,
            final(self).video_queue.capacity() == old(self).video_queue.capacity(),
    {
        if self.media.is_none() || self.state == PlayState::Stopped {
            return ;
        }
        let reference = self.timer.current_time_us(now_us);
        self.timer.stop(now_us);
        self.control.set(ControlEvent::StepToNextKeyframe(reference));
        self.is_seeking = true;
        self.frame_buf = None;
        self.video_queue.clear();
        self.sink_playing = false;
    }

    /// Steps to the last keyframe before the current time; otherwise as
    /// `next_key`.
    pub fn last_key(&mut self, now_us: u64)
        requires
            old(self).wf(),
        ensures
            final(self).wf(),
            !(old(self).media is Some && !(old(self).state is Stopped)) ==> *final(self) == *old(
                self),
            old(self).media is Some && !(old(self).state is Stopped) ==> {
                &&& final(self).timer == old(self).timer.stopped_at(now_us)
                &&& final(self).control.pending() == ControlEvent::StepToPrevKeyframe(
                    old(self).timer.time_at(now_us))
                &&& final(self).is_seeking
                &&& final(self).frame_buf is None
                &&& final(self).video_queue@ == Seq::<FrameImage>::empty()
                &&& !final(self).sink_playing
            },
            final(self).state == old(self).state,
            final(self).media == old(self).media,
            final(self).current == old(self).current,
            final(self).video_queue.capacity() == old(self).video_queue.capacity(),
    {
        if self.media.is_none() || self.state == PlayState::Stopped {
            return ;
        }
        let reference = self.timer.current_time_us(now_us);
        self.timer.stop(now_us);
        self.control.set(ControlEvent::StepToPrevKeyframe(reference));
        self.is_seeking = true;
        self.frame_buf = None;
        self.video_queue.clear();
        self.sink_playing = false;
    }

    /// Pauses the clock and overwrites the accumulated play time.
    pub fn set_playtime(&mut self, us: u64)
        requires
            old(self).wf(),
        ensures
            final(self).wf(),
            *final(self) == (Player { timer: old(self).timer.with_time(us), ..*old(self) }),
            final(self).timer.accumulated() == us,
    {
        self.timer.set_time(us);
    }

    /// The clock's reading at instant `now_us`, in microseconds of media
    /// time.
    pub fn current_playtime(&self, now_us: u64) -> (r: u64)
        ensures
            r == self.timer.time_at(now_us),
    {
        self.timer.current_time_us(now_us)
    }

    pub fn get_state(&self) -> (s: PlayState)
        ensures
            s == self.state,
    {
        self.state
    }

    /// True from a seek request until its first frame is presented.
    pub fn seeking(&self) -> (r: bool)
        ensures
            r == self.is_seeking,
    {
        self.is_seeking
    }

    /// The media duration in microseconds, while a file is open.
    pub fn duration_us(&self) -> (r: Option<u64>)
        requires
            self.wf(),
        ensures
            r is Some <==> self.media is Some,
            r is Some ==> r->0 == self.spec_duration_us(),
    {
        match &self.media {
            Some(m) => Some(m.duration_us()),
            None => None,
        }
    }

    /// Producer side of the video queue, driven by the decode loop: hands
    /// the frame back when the queue is full.
    pub fn enqueue_frame(&mut self, frame: FrameImage) -> (r: Result<(), FrameImage>)
        requires
            old(self).wf(),
        ensures
            final(self).wf(),
            *final(self) == (Player { video_queue: final(self).video_queue, ..*old(self) }),
            final(self).video_queue.capacity() == old(self).video_queue.capacity(),
            old(self).video_queue@.len() < old(self).video_queue.capacity() ==> r is Ok && final(
                self).video_queue@ == old(self).video_queue@.push(frame),
            old(self).video_queue@.len() >= old(self).video_queue.capacity() ==> r == Result::<(),
                FrameImage>::Err(frame) && final(self).video_queue@ == old(self).video_queue@,
    {
        self.video_queue.try_push(frame)
    }

    /// Consumes the pending control event; driven by the decode loop.
    pub fn take_control_event(&mut self) -> (event: ControlEvent)
        requires
            old(self).wf(),
        ensures
            final(self).wf(),
            event == old(self).control.pending(),
            *final(self) == (Player { control: old(self).control.with_event(ControlEvent::Idle),
                ..*old(self) }),
    {
        self.control.take()
    }

    /// The per-tick frame decision, called once per UI refresh.
    ///
    /// While playing or seeking it examines at most one frame: the held
    /// one, else the queue's head. While seeking, frames not marked
    /// `reseeked` are the stale pre-seek tail and are discarded; the
    /// first reseeked frame completes the seek — the clock is set to its
    /// presentation time (and restarted while playing), the audio sink is
    /// asked to run again, and the frame is presented — but only once the
    /// audio sink has reported a fresh callback, so audio and the
    /// just-set clock start together. Otherwise the frame's presentation
    /// time is compared against the clock: within tolerance and due it is
    /// presented, within tolerance but early it is held for a later tick,
    /// and outside tolerance it is dropped as stale without any
    /// corrective reseek.
    pub fn view(&mut self, now_us: u64, audio_callback_seen: bool) -> (event: ViewEvent)
        requires
            old(self).wf(),
        ensures
            final(self).wf(),
            final(self).state == old(self).state,
            final(self).media == old(self).media,
            final(self).control == old(self).control,
            final(self).video_queue.capacity() == old(self).video_queue.capacity(),
            !old(self).pulls_frames() ==> *final(self) == *old(self) && event
                == ViewEvent::Inactive,
            old(self).pulls_frames() && old(self).next_frame() is None ==> *final(self) == *old(
                self) && event == ViewEvent::NoFrame,
            old(self).pulls_frames() && old(self).next_frame() is Some ==> ({
                let f = old(self).next_frame()->0;
                let ft = old(self).frame_time_us(f);
                let p = old(self).timer.time_at(now_us);
                &&& final(self).video_queue@ == old(self).queue_after_take()
                &&& (old(self).is_seeking && !f.reseeked ==> {
                    &&& event == ViewEvent::DiscardedTail
                    &&& final(self).frame_buf is None
                    &&& final(self).current == old(self).current
                    &&& final(self).timer == old(self).timer
                    &&& final(self).is_seeking
                    &&& final(self).sink_playing == old(self).sink_playing
                })
                &&& (old(self).is_seeking && f.reseeked && !audio_callback_seen ==> {
                    &&& event == ViewEvent::AwaitingAudio
                    &&& final(self).frame_buf == Some(f)
                    &&& final(self).current == old(self).current
                    &&& final(self).timer == old(self).timer
                    &&& final(self).is_seeking
                    &&& final(self).sink_playing
                })
                &&& (old(self).is_seeking && f.reseeked && audio_callback_seen ==> {
                    &&& event == ViewEvent::Rendered
                    &&& final(self).frame_buf is None
                    &&& final(self).current == Some(f)
                    &&& !final(self).is_seeking
                    &&& final(self).sink_playing
                    &&& final(self).timer == if old(self).state is Playing {
                        old(self).timer.with_time(ft).started_at(now_us)
                    } else {
                        old(self).timer.with_time(ft)
                    }
                    &&& final(self).timer.time_at(now_us) == ft
                })
                &&& (!old(self).is_seeking ==> {
                    let action = spec_frame_action(ft as int, p as int);
                    &&& final(self).timer == old(self).timer
                    &&& !final(self).is_seeking
                    &&& final(self).sink_playing == old(self).sink_playing
                    &&& (action is Render ==> event == ViewEvent::Rendered && final(
                        self).current == Some(f) && final(self).frame_buf is None)
                    &&& (action is Wait ==> event == ViewEvent::Held && final(self).frame_buf
                        == Some(f) && final(self).current == old(self).current)
                    &&& (action is Drop ==> event == ViewEvent::Dropped && final(
                        self).frame_buf is None && final(self).current == old(self).current)
                })
            }),
    {
        if !(self.state == PlayState::Playing || self.is_seeking) {
            return ViewEvent::Inactive;
        }
        let f_opt = match self.frame_buf.take() {
            Some(f) => Some(f),
            None => self.video_queue.try_pop(),
        };
        let f = match f_opt {
            Some(f) => f,
            None => {
                return ViewEvent::NoFrame;
            },
        };
        let den = match &self.media {
            Some(m) => m.video_time_base_den,
            None => {
                // Unreachable: frames are only pulled while playing or
                // seeking, and either implies a file is open.
                proof {
                    assert(false);
                }
                1
            },
        };
        if self.is_seeking {
            if !f.reseeked {
                return ViewEvent::DiscardedTail;
            }
            if !audio_callback_seen {
                self.sink_playing = true;
                self.frame_buf = Some(f);
                return ViewEvent::AwaitingAudio;
            }
            let ft = pts_to_us_sat(f.pts, den);
            self.timer.set_time(ft);
            if self.state == PlayState::Playing {
                self.timer.start(now_us);
            }
            self.is_seeking = false;
            self.sink_playing = true;
            self.current = Some(f);
            return ViewEvent::Rendered;
        }
        let ft = pts_to_us_sat(f.pts, den);
        let p = self.timer.current_time_us(now_us);
        match compare_time(ft, p) {
            FrameAction::Render => {
                self.current = Some(f);
                ViewEvent::Rendered
            },
            FrameAction::Wait => {
                self.frame_buf = Some(f);
                ViewEvent::Held
            },
            FrameAction::Drop => ViewEvent::Dropped,
        }
    }
}

/// Pausing is idempotent: a second `pause_play`, at any later instant,
/// leaves the player exactly as the first left it.
pub proof fn lemma_pause_play_idempotent(p: Player, now1_us: u64, now2_us: u64)
    ensures
        p.spec_paused(now1_us).spec_paused(now2_us) == p.spec_paused(now1_us),
{
}

/// Pause/resume round trip: however much wall-clock time passes strictly
/// between the pause and the resume, at the instant of the resume the
/// clock reads exactly what it read at the instant of the pause.
pub proof fn lemma_pause_resume_keeps_playtime(p: Player, pause_us: u64, resume_us: u64)
    requires
        p.state is Playing,
    ensures
        p.spec_paused(pause_us).spec_resumed(resume_us).timer.time_at(resume_us)
            == p.timer.time_at(pause_us),
        forall|t: u64| p.spec_paused(pause_us).timer.time_at(t) == p.timer.time_at(pause_us),
{
}

} // verus!
