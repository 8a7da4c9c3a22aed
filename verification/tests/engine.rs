use picargo::engine::DecodeEngine;
use picargo::engine::EngineAction;
use picargo::engine::EngineState;
use picargo::engine::FrameDisposition;
use picargo::engine::PollStep;
use picargo::engine::should_refill;
use picargo::event::ControlEvent;
use picargo::event::EventSlot;
use picargo::media::MediaHandle;
use picargo::media::MediaProbe;
use picargo::media::OpenError;
use picargo::media::StreamInfo;
use picargo::media::open_media;
use picargo::media::pts_to_us;

fn test_media() -> MediaHandle {
    // Ten seconds of video at 30 ticks per second (one tick per frame),
    // audio in a 48 kHz time base.
    MediaHandle {
        video_stream_ix: 0,
        audio_stream_ix: 1,
        video_time_base_den: 30,
        audio_time_base_den: 48_000,
        duration_ticks: 300,
    }
}

#[test]
fn pts_conversion_is_exact() {
    assert_eq!(pts_to_us(300, 30), 10_000_000);
    assert_eq!(pts_to_us(150, 30), 5_000_000);
    assert_eq!(pts_to_us(1, 30), 33_333);
    assert_eq!(pts_to_us(48_000, 48_000), 1_000_000);
    assert_eq!(pts_to_us(0, 90_000), 0);
}

#[test]
fn open_media_reports_each_error() {
    let video = StreamInfo { index: 0, time_base_den: 30, duration_ticks: 300 };
    let audio = StreamInfo { index: 1, time_base_den: 48_000, duration_ticks: 480_000 };

    let missing = MediaProbe {
        file_exists: false,
        video_stream: Some(video),
        audio_stream: Some(audio),
        codec_supported: true,
    };
    assert_eq!(open_media(&missing), Err(OpenError::NoSuchFile));

    let no_video = MediaProbe {
        file_exists: true,
        video_stream: None,
        audio_stream: Some(audio),
        codec_supported: true,
    };
    assert_eq!(open_media(&no_video), Err(OpenError::NoVideoStream));

    let no_audio = MediaProbe {
        file_exists: true,
        video_stream: Some(video),
        audio_stream: None,
        codec_supported: true,
    };
    assert_eq!(open_media(&no_audio), Err(OpenError::NoAudioStream));

    let bad_codec = MediaProbe {
        file_exists: true,
        video_stream: Some(video),
        audio_stream: Some(audio),
        codec_supported: false,
    };
    assert_eq!(open_media(&bad_codec), Err(OpenError::UnsupportedCodec));

    let good = MediaProbe {
        file_exists: true,
        video_stream: Some(video),
        audio_stream: Some(audio),
        codec_supported: true,
    };
    let handle = open_media(&good).unwrap();
    assert_eq!(handle.video_stream_ix, 0);
    assert_eq!(handle.audio_stream_ix, 1);
    assert_eq!(handle.duration_us(), 10_000_000);
}

#[test]
fn mailbox_overwrites_never_queues() {
    // Rapid Pause then Seek before the decode thread wakes: Seek wins.
    let mut slot = EventSlot::new();
    slot.set(ControlEvent::Pause);
    slot.set(ControlEvent::Seek(5_000_000));
    assert_eq!(slot.take(), ControlEvent::Seek(5_000_000));
    // Consuming resets the slot to idle.
    assert_eq!(slot.take(), ControlEvent::Idle);
}

#[test]
fn seek_discards_until_target_then_marks_reseeked() {
    let mut engine = DecodeEngine::new(test_media());
    assert_eq!(engine.state, EngineState::Running);
    assert_eq!(engine.on_video_frame(10), FrameDisposition::Emit(false));

    let action = engine.on_event(ControlEvent::Seek(5_000_000));
    assert_eq!(action, EngineAction::SeekDemuxer(5_000_000));
    assert_eq!(engine.state, EngineState::Seeking);

    // Frames before the target are the stale tail: discarded.
    assert_eq!(engine.on_video_frame(100), FrameDisposition::Discard);
    assert_eq!(engine.on_video_frame(149), FrameDisposition::Discard);
    // The first frame at the target carries the reseeked mark.
    assert_eq!(engine.on_video_frame(150), FrameDisposition::Emit(true));
    // Later frames are plain again, but the seek is not over until the
    // audio rail reaches the target too.
    assert_eq!(engine.on_video_frame(151), FrameDisposition::Emit(false));
    assert_eq!(engine.state, EngineState::Seeking);

    assert_eq!(engine.on_audio_frame(100_000), FrameDisposition::Discard);
    assert_eq!(engine.on_audio_frame(240_000), FrameDisposition::Emit(true));
    assert_eq!(engine.state, EngineState::Running);
}

#[test]
fn stop_event_terminates() {
    let mut engine = DecodeEngine::new(test_media());
    assert_eq!(engine.on_event(ControlEvent::Stop), EngineAction::Terminate);
    assert_eq!(engine.state, EngineState::Stopped);
}

#[test]
fn pause_event_blocks_without_changing_state() {
    let mut engine = DecodeEngine::new(test_media());
    assert_eq!(engine.on_event(ControlEvent::Pause), EngineAction::AwaitResume);
    assert_eq!(engine.state, EngineState::Running);
    assert_eq!(engine.on_event(ControlEvent::Idle), EngineAction::Proceed);
}

#[test]
fn keyframe_step_accepts_the_first_decoded_frame() {
    let mut engine = DecodeEngine::new(test_media());
    let action = engine.on_event(ControlEvent::StepToNextKeyframe(2_000_000));
    assert_eq!(action, EngineAction::SeekNextKeyframe(2_000_000));
    assert_eq!(engine.state, EngineState::Seeking);
    // The demuxer lands on the keyframe; whatever decodes first is the
    // frame to present.
    assert_eq!(engine.on_video_frame(90), FrameDisposition::Emit(true));
}

#[test]
fn backpressure_sleeps_when_full_and_finishes_when_drained() {
    let engine = DecodeEngine::new(test_media());
    assert_eq!(engine.next_step(false, false, false, false), PollStep::Work);
    assert_eq!(engine.next_step(true, false, false, false), PollStep::Work);
    assert_eq!(engine.next_step(true, true, false, false), PollStep::Sleep);
    assert_eq!(engine.next_step(true, true, true, false), PollStep::Sleep);
    assert_eq!(engine.next_step(false, false, true, true), PollStep::Finish);
    assert_eq!(engine.next_step(true, true, true, true), PollStep::Finish);
}

#[test]
fn packet_buffer_refills_below_low_water() {
    assert!(should_refill(3, 10, false));
    assert!(!should_refill(10, 10, false));
    assert!(!should_refill(3, 10, true));
}
