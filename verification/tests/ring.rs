use virtual_mic::ring::SampleRingBuffer;

#[test]
fn push_pop_round_trip() {
    let mut ring = SampleRingBuffer::new(10, 1, 48_000, 0.0f32);
    let dropped = ring.push_frame(&[0.1, 0.2, 0.3, 0.4, 0.5], 1, 48_000, 1);
    assert_eq!(dropped, 0);
    assert_eq!(ring.available_frames(), 5);

    let mut out = [0.0f32; 5];
    let frames = ring.pop_into(&mut out, 1, 0.0);
    assert_eq!(frames, 5);
    assert_eq!(out, [0.1, 0.2, 0.3, 0.4, 0.5]);
    assert_eq!(ring.available_frames(), 0);
}

#[test]
fn pop_zero_fills_on_underrun() {
    let mut ring = SampleRingBuffer::new(10, 1, 48_000, 0.0f32);
    ring.push_frame(&[0.1, 0.2], 1, 48_000, 1);

    let mut out = [0.0f32; 5];
    let frames = ring.pop_into(&mut out, 1, 0.0);
    assert_eq!(frames, 2);
    assert_eq!(out, [0.1, 0.2, 0.0, 0.0, 0.0]);
}

#[test]
fn overwrite_drops_oldest() {
    let mut ring = SampleRingBuffer::new(4, 1, 48_000, 0.0f32);
    ring.push_frame(&[1.0, 2.0, 3.0, 4.0], 1, 48_000, 1);
    assert_eq!(ring.available_frames(), 4);

    let dropped = ring.push_frame(&[5.0, 6.0], 1, 48_000, 2);
    assert_eq!(dropped, 2);
    assert_eq!(ring.available_frames(), 4);

    let mut out = [0.0f32; 4];
    ring.pop_into(&mut out, 1, 0.0);
    assert_eq!(out, [3.0, 4.0, 5.0, 6.0]);
}

#[test]
fn wrap_around_index() {
    let mut ring = SampleRingBuffer::new(4, 1, 48_000, 0.0f32);
    let dropped = ring.push_frame(&[1.0, 2.0, 3.0, 4.0, 5.0, 6.0], 1, 48_000, 1);
    assert_eq!(dropped, 2);
    assert_eq!(ring.available_frames(), 4);

    let mut out = [0.0f32; 4];
    ring.pop_into(&mut out, 1, 0.0);
    assert_eq!(out, [3.0, 4.0, 5.0, 6.0]);
}

#[test]
fn metadata_tracked() {
    let mut ring = SampleRingBuffer::new(10, 2, 48_000, 0.0f32);
    ring.push_frame(&[0.5], 1, 44_100, 42);
    assert_eq!(ring.last_timestamp_ns(), 42);
    assert_eq!(ring.sample_rate(), 44_100);
    // channels stored as max(1), so 1 from frame is preserved
    assert_eq!(ring.available_frames(), 1);
}

#[test]
fn multi_channel_frame_count() {
    let mut ring = SampleRingBuffer::new(10, 2, 48_000, 0.0f32);
    ring.push_frame(&[0.1, 0.2, 0.3, 0.4, 0.5, 0.6], 2, 48_000, 1);
    assert_eq!(ring.available_frames(), 3);

    let mut out = [0.0f32; 4];
    let frames = ring.pop_into(&mut out, 2, 0.0);
    assert_eq!(frames, 2);
    assert_eq!(out, [0.1, 0.2, 0.3, 0.4]);
    assert_eq!(ring.available_frames(), 1);
}

#[test]
fn empty_push_is_no_op() {
    let mut ring = SampleRingBuffer::new(10, 1, 48_000, 0.0f32);
    let dropped = ring.push_frame(&[], 1, 48_000, 1);
    assert_eq!(dropped, 0);
    assert_eq!(ring.available_frames(), 0);
}

#[test]
fn fifo_across_many_wraps() {
    let mut ring = SampleRingBuffer::new(3, 1, 16_000, -1i32);
    let mut out = [0i32; 2];
    for k in 0..10 {
        ring.push_frame(&[2 * k, 2 * k + 1], 1, 16_000, k as u64);
        assert_eq!(ring.pop_into(&mut out, 1, -1), 2);
        assert_eq!(out, [2 * k, 2 * k + 1]);
    }
    assert_eq!(ring.pop_into(&mut out, 1, -1), 0);
    assert_eq!(out, [-1, -1]);
}

#[test]
fn push_reports_excess_and_keeps_newest() {
    let mut ring = SampleRingBuffer::new(4, 1, 8_000, 0i16);
    assert_eq!(ring.push_frame(&[1, 2, 3], 1, 8_000, 1), 0);
    assert_eq!(ring.push_frame(&[], 1, 8_000, 2), 0);
    assert_eq!(ring.push_frame(&[4, 5, 6], 1, 8_000, 3), 2);
    assert_eq!(ring.available_frames(), 4);
    let mut out = vec![0i16; 4];
    ring.pop_into(&mut out, 1, 0);
    assert_eq!(out, vec![3, 4, 5, 6]);
}
