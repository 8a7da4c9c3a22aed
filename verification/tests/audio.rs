use picargo::audio::fill_callback;
use picargo::queue::BoundedQueue;

#[test]
fn underrun_yields_exact_silence_not_a_stall() {
    // Device underrun: the audio queue is empty while the callback asks
    // for 512 samples. The callback gets exactly 512 samples of zero
    // amplitude.
    let mut q: BoundedQueue<f32> = BoundedQueue::new(48_000);
    let out = fill_callback(&mut q, 512, 0.0f32);
    assert_eq!(out.len(), 512);
    assert!(out.iter().all(|s| *s == 0.0));
}

#[test]
fn partial_underrun_pads_the_remainder() {
    let mut q: BoundedQueue<f32> = BoundedQueue::new(8);
    assert!(q.try_push(0.25).is_ok());
    assert!(q.try_push(-0.5).is_ok());
    assert!(q.try_push(1.0).is_ok());
    let out = fill_callback(&mut q, 5, 0.0f32);
    assert_eq!(out, vec![0.25, -0.5, 1.0, 0.0, 0.0]);
    assert!(q.is_empty());
}

#[test]
fn full_queue_serves_the_request_in_order() {
    let mut q: BoundedQueue<i16> = BoundedQueue::new(8);
    for i in 0..8i16 {
        assert!(q.try_push(i).is_ok());
    }
    let out = fill_callback(&mut q, 4, 0i16);
    assert_eq!(out, vec![0, 1, 2, 3]);
    assert_eq!(q.len(), 4);
    let out = fill_callback(&mut q, 4, 0i16);
    assert_eq!(out, vec![4, 5, 6, 7]);
    assert!(q.is_empty());
}
