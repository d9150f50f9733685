use termplay::pacing::{
    calculate_fps, record_frame_time, sleep_duration_micros, target_frame_interval_micros,
};
use termplay::transport::{DurationType, SeekDirection, Transport};

#[test]
fn target_interval_at_thirty_fps() {
    assert_eq!(target_frame_interval_micros(30), 33_333);
    assert_eq!(target_frame_interval_micros(1), 1_000_000);
    assert_eq!(target_frame_interval_micros(60), 16_666);
}

#[test]
fn fast_paint_sleeps_the_residual_interval() {
    // a 10 ms paint at 30 fps sleeps roughly 33.3 ms - 10 ms
    let target = target_frame_interval_micros(30);
    assert_eq!(sleep_duration_micros(target, 10_000), 23_333);
}

#[test]
fn slow_paint_never_sleeps() {
    assert_eq!(sleep_duration_micros(33_333, 50_000), 0);
    assert_eq!(sleep_duration_micros(33_333, 33_333), 0);
}

#[test]
fn observed_fps_needs_ten_samples() {
    let times: Vec<u64> = (0..9).map(|i| i * 100_000).collect();
    assert_eq!(calculate_fps(&times), 0);
}

#[test]
fn observed_fps_over_a_full_window() {
    // ten paints spanning 0.9 s: 10 / 0.9 s
    let times: Vec<u64> = (0..10).map(|i| i * 100_000).collect();
    assert_eq!(calculate_fps(&times), 11);
}

#[test]
fn observed_fps_of_an_instantaneous_window_is_zero() {
    let times: Vec<u64> = vec![7_000; 12];
    assert_eq!(calculate_fps(&times), 0);
}

#[test]
fn frame_time_window_keeps_the_last_ten() {
    let mut times: Vec<u64> = Vec::new();
    for i in 0..15u64 {
        record_frame_time(&mut times, i);
        assert!(times.len() <= 10);
    }
    assert_eq!(times, (5..15).collect::<Vec<u64>>());
}

#[test]
fn seek_backward_clamps_at_the_start() {
    // 3 s in at 30 fps; 5 s back lands on t = 0, never negative
    let mut transport = Transport::new(30, false);
    for _ in 0..90 {
        transport.on_frame_painted();
    }
    let target = transport.seek(SeekDirection::Backward);
    assert_eq!(transport.frames_seen, 0);
    assert_eq!(target, Some(0));
}

#[test]
fn seek_forward_adds_five_seconds() {
    let mut transport = Transport::new(30, false);
    for _ in 0..90 {
        transport.on_frame_painted();
    }
    let target = transport.seek(SeekDirection::Forward);
    assert_eq!(transport.frames_seen, 240);
    assert_eq!(target, Some(8_000));
}

#[test]
fn seek_backward_mid_stream_keeps_the_remainder() {
    let mut transport = Transport::new(25, false);
    for _ in 0..300 {
        transport.on_frame_painted();
    }
    // 12 s in: 5 s back is 7 s, 175 frames
    let target = transport.seek(SeekDirection::Backward);
    assert_eq!(transport.frames_seen, 175);
    assert_eq!(target, Some(7_000));
}

#[test]
fn seeking_is_inert_on_live_streams() {
    let mut transport = Transport::new(30, true);
    for _ in 0..90 {
        transport.on_frame_painted();
    }
    assert_eq!(transport.seek(SeekDirection::Forward), None);
    assert_eq!(transport.seek(SeekDirection::Backward), None);
    assert_eq!(transport.frames_seen, 90);
}

#[test]
fn current_time_is_frames_over_rate() {
    let mut transport = Transport::new(24, false);
    for _ in 0..100 {
        transport.on_frame_painted();
    }
    assert_eq!(transport.current_time_secs(), 4);
}

#[test]
fn fixed_session_ends_inside_the_last_twentieth() {
    // ten seconds at 25 fps: 9.96 s is frame 249
    let mut transport = Transport::new(25, false);
    for _ in 0..248 {
        transport.on_frame_painted();
    }
    assert!(!transport.finished(DurationType::Fixed(10)));
    transport.on_frame_painted();
    assert_eq!(transport.frames_seen, 249);
    assert!(transport.finished(DurationType::Fixed(10)));
}

#[test]
fn live_session_never_ends() {
    let mut transport = Transport::new(25, true);
    for _ in 0..100_000 {
        transport.on_frame_painted();
    }
    assert!(!transport.finished(DurationType::Live));
}

#[test]
fn zero_length_session_is_over_at_once() {
    let transport = Transport::new(30, false);
    assert!(transport.finished(DurationType::Fixed(0)));
}
