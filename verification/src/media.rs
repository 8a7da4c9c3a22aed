//! The opened media container as the engine sees it: selected streams,
//! their time bases, the total duration, and the open-time validation
//! that either yields a handle or a typed error.
//!
//! The container itself stays with the codec library in the surrounding
//! program; what crosses into the core is a `MediaProbe` of plain values
//! read off the container, and timestamps as integer ticks that the core
//! converts to microseconds.

use vstd::prelude::*;

verus! {

/// A presentation timestamp in ticks of a time base with `den` ticks per
/// second, as microseconds of media time.
pub open spec fn ticks_to_us(ticks: u64, den: u32) -> int {
    ticks * 1_000_000 / den as int
}

/// Converts a tick count to microseconds on machine integers.
pub fn pts_to_us(ticks: u64, den: u32) -> (r: u64)
    requires
        1 <= den,
        ticks_to_us(ticks, den) <= u64::MAX,
    ensures
        r == ticks_to_us(ticks, den),
{
    let wide: u128 = (ticks as u128) * 1_000_000 / (den as u128);
    wide as u64
}

/// As `ticks_to_us`, saturated at `u64::MAX`.
pub open spec fn ticks_to_us_sat(ticks: u64, den: u32) -> u64 {
    if ticks_to_us(ticks, den) <= u64::MAX {
        ticks_to_us(ticks, den) as u64
    } else {
        u64::MAX
    }
}

/// Converts a tick count to microseconds, saturating at `u64::MAX`.
pub fn pts_to_us_sat(ticks: u64, den: u32) -> (r: u64)
    requires
        1 <= den,
    ensures
        r == ticks_to_us_sat(ticks, den),
{
    let wide: u128 = (ticks as u128) * 1_000_000 / (den as u128);
    if wide <= u64::MAX as u128 {
        wide as u64
    } else {
        u64::MAX
    }
}

/// What can go wrong opening a file, reported synchronously to the caller
/// of `open`; no decode thread is started on any of these.
#[derive(Clone, Copy, PartialEq, Eq, Structural, Debug)]
pub enum OpenError {
    NoSuchFile,
    NoVideoStream,
    NoAudioStream,
    UnsupportedCodec,
}

/// One stream of the container, as plain values: its index, the
/// denominator of its time base (ticks per second, the numerator being
/// one), and its duration in its own ticks.
#[derive(Clone, Copy, PartialEq, Eq, Structural, Debug)]
pub struct StreamInfo {
    pub index: usize,
    pub time_base_den: u32,
    pub duration_ticks: u64,
}

/// What probing a container yields, handed in by the shell that talks to
/// the codec library: whether the file could be opened, the best video
/// and audio streams if any, and whether a decoder could be instantiated
/// for the video codec.
#[derive(Clone, Copy, PartialEq, Eq, Structural, Debug)]
pub struct MediaProbe {
    pub file_exists: bool,
    pub video_stream: Option<StreamInfo>,
    pub audio_stream: Option<StreamInfo>,
    pub codec_supported: bool,
}

/// The opened container: stream selection, time bases and duration.
/// Immutable after creation; owned by the decode engine once handed off.
#[derive(Clone, Copy, PartialEq, Eq, Structural, Debug)]
pub struct MediaHandle {
    pub video_stream_ix: usize,
    pub audio_stream_ix: usize,
    pub video_time_base_den: u32,
    pub audio_time_base_den: u32,
    pub duration_ticks: u64,
}

impl MediaHandle {
    /// Both time bases are positive and the duration is representable in
    /// microseconds.
    pub open spec fn wf(self) -> bool {
        &&& 1 <= self.video_time_base_den
        &&& 1 <= self.audio_time_base_den
        &&& ticks_to_us(self.duration_ticks, self.video_time_base_den) <= u64::MAX
    }

    /// The total duration in microseconds of media time.
    pub open spec fn spec_duration_us(self) -> int {
        ticks_to_us(self.duration_ticks, self.video_time_base_den)
    }

    pub fn duration_us(&self) -> (r: u64)
        requires
            self.wf(),
        ensures
            r == self.spec_duration_us(),
    {
        pts_to_us(self.duration_ticks, self.video_time_base_den)
    }
}

/// A probe is representable when every stream it names has a positive
/// time base whose durations fit in microseconds — what the machine
/// forces, not a judgment on the file.
pub open spec fn probe_representable(probe: MediaProbe) -> bool {
    &&& match probe.video_stream {
        Some(s) => 1 <= s.time_base_den && ticks_to_us(s.duration_ticks, s.time_base_den)
            <= u64::MAX,
        None => true,
    }
    &&& match probe.audio_stream {
        Some(s) => 1 <= s.time_base_den,
        None => true,
    }
}

/// Open-time validation: turns a probe into a media handle or the one
/// typed error the probe forces, checked in the order the container is
/// read — the file itself, then the video stream, then the audio stream,
/// then the video decoder.
pub fn open_media(probe: &MediaProbe) -> (r: Result<MediaHandle, OpenError>)
    requires
        probe_representable(*probe),
    ensures
        (r == Result::<MediaHandle, OpenError>::Err(OpenError::NoSuchFile)) <==> !probe.file_exists,
        (r == Result::<MediaHandle, OpenError>::Err(OpenError::NoVideoStream)) <==> (
            probe.file_exists && probe.video_stream is None),
        (r == Result::<MediaHandle, OpenError>::Err(OpenError::NoAudioStream)) <==> (
            probe.file_exists && probe.video_stream is Some && probe.audio_stream is None),
        (r == Result::<MediaHandle, OpenError>::Err(OpenError::UnsupportedCodec)) <==> (
            probe.file_exists && probe.video_stream is Some && probe.audio_stream is Some
            && !probe.codec_supported),
        r is Ok <==> (probe.file_exists && probe.video_stream is Some
            && probe.audio_stream is Some && probe.codec_supported),
        r is Ok ==> {
            let handle = r->Ok_0;
            &&& handle.wf()
            &&& handle.video_stream_ix == probe.video_stream->0.index
            &&& handle.audio_stream_ix == probe.audio_stream->0.index
            &&& handle.video_time_base_den == probe.video_stream->0.time_base_den
            &&& handle.audio_time_base_den == probe.audio_stream->0.time_base_den
            &&& handle.duration_ticks == probe.video_stream->0.duration_ticks
        },
{
    if !probe.file_exists {
        return Err(OpenError::NoSuchFile);
    }
    let video = match probe.video_stream {
        Some(s) => s,
        None => {
            return Err(OpenError::NoVideoStream);
        },
    };
    let audio = match probe.audio_stream {
        Some(s) => s,
        None => {
            return Err(OpenError::NoAudioStream);
        },
    };
    if !probe.codec_supported {
        return Err(OpenError::UnsupportedCodec);
    }
    Ok(
        MediaHandle {
            video_stream_ix: video.index,
            audio_stream_ix: audio.index,
            video_time_base_den: video.time_base_den,
            audio_time_base_den: audio.time_base_den,
            duration_ticks: video.duration_ticks,
        },
    )
}

} // verus!
