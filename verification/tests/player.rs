use picargo::event::ControlEvent;
use picargo::frame::FrameAction;
use picargo::frame::FrameImage;
use picargo::frame::compare_time;
use picargo::media::MediaProbe;
use picargo::media::StreamInfo;
use picargo::player::PlayState;
use picargo::player::Player;
use picargo::player::ViewEvent;

fn test_probe() -> MediaProbe {
    // A 10.000 s video at 30 frames per second, one tick per frame.
    MediaProbe {
        file_exists: true,
        video_stream: Some(StreamInfo { index: 0, time_base_den: 30, duration_ticks: 300 }),
        audio_stream: Some(StreamInfo { index: 1, time_base_den: 48_000, duration_ticks: 480_000 }),
        codec_supported: true,
    }
}

fn frame(pts: u64, reseeked: bool) -> FrameImage {
    FrameImage { image: vec![0, 0, 0, 255], pts, reseeked }
}

#[test]
fn compare_time_boundary_law() {
    let tol = 300_000u64;
    let p = 2_000_000u64;
    // |p - f| <= tol and f <= p: render.
    assert_eq!(compare_time(p, p), FrameAction::Render);
    assert_eq!(compare_time(p - tol, p), FrameAction::Render);
    assert_eq!(compare_time(p - 1, p), FrameAction::Render);
    // |p - f| <= tol and f > p: wait.
    assert_eq!(compare_time(p + 1, p), FrameAction::Wait);
    assert_eq!(compare_time(p + tol, p), FrameAction::Wait);
    // |p - f| > tol: drop.
    assert_eq!(compare_time(p - tol - 1, p), FrameAction::Drop);
    assert_eq!(compare_time(p + tol + 1, p), FrameAction::Drop);
}

#[test]
fn pause_play_is_idempotent() {
    let mut once = Player::new();
    assert!(once.open(&test_probe()).is_ok());
    once.start_play(0);
    let mut twice = Player::new();
    assert!(twice.open(&test_probe()).is_ok());
    twice.start_play(0);

    once.pause_play(1_500_000);
    twice.pause_play(1_500_000);
    twice.pause_play(2_500_000);

    assert_eq!(once.get_state(), twice.get_state());
    assert_eq!(once.current_playtime(9_000_000), twice.current_playtime(9_000_000));
    assert_eq!(once.current_playtime(9_000_000), 1_500_000);
}

#[test]
fn control_operations_are_noops_while_meaningless() {
    let mut p = Player::new();
    // Nothing open: everything is a no-op, not an error.
    p.pause_play(100);
    p.resume_play(200);
    p.seek_to(5_000_000);
    assert_eq!(p.get_state(), PlayState::Stopped);
    assert!(!p.seeking());
    // Open but stopped: pause stays meaningless.
    assert!(p.open(&test_probe()).is_ok());
    p.pause_play(100);
    assert_eq!(p.get_state(), PlayState::Stopped);
}

#[test]
fn pause_resume_round_trip_keeps_playtime() {
    let mut p = Player::new();
    assert!(p.open(&test_probe()).is_ok());
    p.start_play(0);
    p.pause_play(2_000_000);
    // Wall-clock time elapsed strictly between pause and resume does not
    // move the play time.
    assert_eq!(p.current_playtime(50_000_000), 2_000_000);
    p.resume_play(60_000_000);
    assert_eq!(p.current_playtime(60_000_000), 2_000_000);
    assert_eq!(p.current_playtime(61_000_000), 3_000_000);
}

#[test]
fn seek_clamps_into_duration() {
    let mut p = Player::new();
    assert!(p.open(&test_probe()).is_ok());
    p.start_play(0);
    // Seeking to -3 s clamps to 0.
    p.seek_to(-3_000_000);
    assert_eq!(p.take_control_event(), ControlEvent::Seek(0));
    // Seeking past the end clamps to the duration.
    p.seek_to(10_000_000 + 100_000_000);
    assert_eq!(p.take_control_event(), ControlEvent::Seek(10_000_000));
}

#[test]
fn relative_seek_clamps_like_an_absolute_one() {
    let mut p = Player::new();
    assert!(p.open(&test_probe()).is_ok());
    p.start_play(0);
    // Skip back 5 s from a clock at 2 s: clamps to 0.
    p.seek_by(-5_000_000, 2_000_000);
    assert_eq!(p.take_control_event(), ControlEvent::Seek(0));
    // Skip forward 5 s from a clock at 2 s.
    p.seek_by(5_000_000, 2_000_000);
    assert_eq!(p.take_control_event(), ControlEvent::Seek(7_000_000));
    // Skip forward past the end: clamps to the duration.
    p.seek_by(9_000_000, 2_000_000);
    assert_eq!(p.take_control_event(), ControlEvent::Seek(10_000_000));
}

#[test]
fn view_renders_due_frames_and_holds_early_ones() {
    let mut p = Player::new();
    assert!(p.open(&test_probe()).is_ok());
    p.start_play(0);

    // Frame 0 is due immediately.
    assert!(p.enqueue_frame(frame(0, false)).is_ok());
    assert_eq!(p.view(1_000, false), ViewEvent::Rendered);

    // Frame 30 (1.0 s) is ahead of a clock at 0.75 s but within
    // tolerance: held, then rendered once the clock catches up.
    assert!(p.enqueue_frame(frame(30, false)).is_ok());
    assert_eq!(p.view(750_000, false), ViewEvent::Held);
    assert_eq!(p.view(1_050_000, false), ViewEvent::Rendered);

    // A frame that has fallen far behind the clock is dropped.
    assert!(p.enqueue_frame(frame(15, false)).is_ok());
    assert_eq!(p.view(2_000_000, false), ViewEvent::Dropped);

    // Nothing queued: the last presented frame stands.
    assert_eq!(p.view(2_100_000, false), ViewEvent::NoFrame);
}

#[test]
fn view_is_inactive_while_paused() {
    let mut p = Player::new();
    assert!(p.open(&test_probe()).is_ok());
    p.start_play(0);
    p.pause_play(500_000);
    assert!(p.enqueue_frame(frame(15, false)).is_ok());
    assert_eq!(p.view(600_000, false), ViewEvent::Inactive);
}

#[test]
fn seek_scenario_resynchronizes_clock_and_audio() {
    // Open a 10.000 s / 30 fps video, start playing, and at 2.0 s of
    // play seek to 5.0 s.
    let mut p = Player::new();
    assert!(p.open(&test_probe()).is_ok());
    p.start_play(0);
    assert!(p.enqueue_frame(frame(0, false)).is_ok());
    assert_eq!(p.view(1_000, false), ViewEvent::Rendered);
    assert!(p.enqueue_frame(frame(59, false)).is_ok());
    assert!(p.enqueue_frame(frame(60, false)).is_ok());
    assert_eq!(p.current_playtime(2_000_000), 2_000_000);

    p.seek_to(5_000_000);
    // The queue is cleared, the audio sink paused, the seek sent.
    assert!(p.seeking());
    assert!(!p.sink_playing);
    assert_eq!(p.take_control_event(), ControlEvent::Seek(5_000_000));

    // A stale tail frame that was still in flight is discarded.
    assert!(p.enqueue_frame(frame(61, false)).is_ok());
    assert_eq!(p.view(2_100_000, false), ViewEvent::DiscardedTail);

    // The reseeked frame arrives with pts in [5.0 s, 5.0 s + 1/30 s):
    // tick 150 is exactly 5.0 s. Until the audio sink reports a fresh
    // callback the frame is held and the sink asked to run.
    assert!(p.enqueue_frame(frame(150, true)).is_ok());
    assert_eq!(p.view(2_200_000, false), ViewEvent::AwaitingAudio);
    assert!(p.sink_playing);
    assert!(p.seeking());

    // The callback signal arrives: the frame is rendered, the clock is
    // reset to its presentation time, audio keeps running.
    assert_eq!(p.view(2_300_000, true), ViewEvent::Rendered);
    assert!(!p.seeking());
    assert!(p.sink_playing);
    assert_eq!(p.current_playtime(2_300_000), 5_000_000);
    assert_eq!(p.current_playtime(3_300_000), 6_000_000);
    assert_eq!(p.current.as_ref().map(|f| f.pts), Some(150));
}

#[test]
fn stop_play_resets_everything() {
    let mut p = Player::new();
    assert!(p.open(&test_probe()).is_ok());
    p.start_play(0);
    assert!(p.enqueue_frame(frame(0, false)).is_ok());
    assert_eq!(p.view(1_000, false), ViewEvent::Rendered);
    p.stop_play();
    assert_eq!(p.get_state(), PlayState::Stopped);
    assert_eq!(p.current_playtime(9_000_000), 0);
    assert_eq!(p.take_control_event(), ControlEvent::Stop);
    assert_eq!(p.view(9_000_000, false), ViewEvent::Inactive);
}

#[test]
fn keyframe_step_pauses_clock_and_sends_reference() {
    let mut p = Player::new();
    assert!(p.open(&test_probe()).is_ok());
    p.start_play(0);
    p.next_key(2_000_000);
    assert_eq!(p.take_control_event(), ControlEvent::StepToNextKeyframe(2_000_000));
    assert!(p.seeking());
    let mut q = Player::new();
    assert!(q.open(&test_probe()).is_ok());
    q.start_play(0);
    q.last_key(3_000_000);
    assert_eq!(q.take_control_event(), ControlEvent::StepToPrevKeyframe(3_000_000));
}
