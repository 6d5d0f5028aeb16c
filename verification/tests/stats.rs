use framewise::stats::metrics::fps_summary_samples;
use framewise::stats::{FrameTimes, ProcessFrames};

fn ms(x: f32) -> u32 {
    x.to_bits()
}

#[test]
fn ignores_frame_times_that_are_not_positive_and_finite() {
    let mut ft = FrameTimes::new(10);
    for bad in [0.0f32, -0.0, -5.0, f32::NAN, f32::INFINITY, f32::NEG_INFINITY] {
        ft.push(bad.to_bits(), 1);
    }
    assert_eq!(ft.len(), 0);
    ft.push(ms(f32::MIN_POSITIVE), 1);
    ft.push(ms(f32::MAX), 2);
    assert_eq!(ft.len(), 2);
}

#[test]
fn keeps_the_most_recent_frames_up_to_capacity() {
    let mut ft = FrameTimes::new(3);
    for i in 1..=5u64 {
        ft.push(ms(i as f32), i * 10);
    }
    assert_eq!(ft.len(), 3);
    // newest first
    let recent: Vec<f32> = ft.recent_frame_times(50, 1000).iter().map(|b| f32::from_bits(*b)).collect();
    assert_eq!(recent, vec![5.0, 4.0, 3.0]);
}

#[test]
fn zero_capacity_keeps_one_frame() {
    let mut ft = FrameTimes::new(0);
    ft.push(ms(1.0), 1);
    ft.push(ms(2.0), 2);
    assert_eq!(ft.len(), 1);
    assert_eq!(ft.recent_frame_times(2, 0), vec![ms(2.0)]);
}

#[test]
fn staleness() {
    let mut ft = FrameTimes::new(10);
    assert!(ft.is_stale(0, 1_000));
    ft.push(ms(16.6), 5_000);
    assert!(!ft.is_stale(5_000, 0));
    assert!(!ft.is_stale(6_000, 1_000));
    assert!(ft.is_stale(6_001, 1_000));
    // a clock reading before the frame counts as no time elapsed
    assert!(!ft.is_stale(4_000, 0));
}

#[test]
fn recent_window_stops_at_first_old_frame() {
    let mut ft = FrameTimes::new(10);
    ft.push(ms(1.0), 100);
    ft.push(ms(2.0), 900);
    ft.push(ms(3.0), 200);
    ft.push(ms(4.0), 950);
    // Window of 200 from 1000: frame at 950 is in, 200 is out; stop there.
    assert_eq!(ft.recent_frame_times(1000, 200), vec![ms(4.0)]);
    assert_eq!(ft.recent_frame_times(1000, 900), vec![ms(4.0), ms(3.0), ms(2.0), ms(1.0)]);
    assert!(ft.recent_frame_times(2000, 10).is_empty());
}

#[test]
fn percentile_needs_thirty_frames() {
    let mut ft = FrameTimes::new(1000);
    for i in 0..29u64 {
        ft.push(ms(10.0), i);
    }
    assert_eq!(ft.low_percentile(), None);
    ft.push(ms(10.0), 30);
    assert_eq!(ft.low_percentile(), Some(ms(10.0)));
}

#[test]
fn percentile_is_the_99th() {
    let mut ft = FrameTimes::new(1000);
    // 100 frames: 1..=100 ms, pushed out of order.
    for i in 0..100u32 {
        let v = ((i * 37) % 100 + 1) as f32;
        ft.push(ms(v), i as u64);
    }
    // ceil(0.99 * 100) - 1 = 98 -> the 99th smallest, 99 ms.
    assert_eq!(ft.low_percentile(), Some(ms(99.0)));
    // 250 frames of 1..=250: index ceil(247.5) - 1 = 247 -> 248 ms.
    let mut ft = FrameTimes::new(1000);
    for i in 0..250u32 {
        ft.push(ms((250 - i) as f32), i as u64);
    }
    assert_eq!(ft.low_percentile(), Some(ms(248.0)));
}

#[test]
fn percentile_position_agrees_with_single_precision_formula() {
    // The position is ceil(0.99 * n) - 1, computed exactly; it is the one the
    // f32 formula gives for every buffer the configuration allows.
    for n in 30usize..=100_000 {
        let float_idx = ((0.99f32 * n as f32).ceil() as usize).saturating_sub(1).min(n - 1);
        assert_eq!(float_idx, n - n / 100 - 1, "n = {n}");
    }
}

#[test]
fn summary_samples_gates_on_availability_and_staleness() {
    let mut ft = FrameTimes::new(100);
    for i in 0..40u64 {
        ft.push(ms(16.0), 1_000 + i);
    }
    assert!(fps_summary_samples(false, 7, Some(&ft), 1_040, 1_000, 1_500).is_none());
    assert!(fps_summary_samples(true, 0, Some(&ft), 1_040, 1_000, 1_500).is_none());
    assert!(fps_summary_samples(true, 7, None, 1_040, 1_000, 1_500).is_none());
    assert!(fps_summary_samples(true, 7, Some(&ft), 10_000, 1_000, 1_500).is_none());
    let (recent, low) = fps_summary_samples(true, 7, Some(&ft), 1_040, 1_000, 1_500).unwrap();
    assert_eq!(recent.len(), 40);
    assert_eq!(low, Some(ms(16.0)));
    // fresh but nothing within the averaging window
    assert!(fps_summary_samples(true, 7, Some(&ft), 1_100, 10, 1_500).is_none());
}

#[test]
fn per_process_buffers() {
    let mut frames = ProcessFrames::new();
    assert!(frames.get(1).is_none());
    frames.record(1, 5, ms(10.0), 100);
    frames.record(2, 5, ms(20.0), 200);
    frames.record(1, 99, ms(11.0), 300);
    // an invalid frame time still gives the process a (empty) buffer
    frames.record(3, 5, f32::NAN.to_bits(), 300);
    assert_eq!(frames.len(), 3);
    assert_eq!(frames.get(1).unwrap().len(), 2);
    assert_eq!(frames.get(3).unwrap().len(), 0);
    for i in 0..10u64 {
        frames.record(1, 99, ms(12.0), 400 + i);
    }
    // capacity is set when the process is first seen
    assert_eq!(frames.get(1).unwrap().len(), 5);
    frames.prune_stale(1_000, 700);
    assert!(frames.get(1).is_some());
    assert!(frames.get(2).is_none());
    assert!(frames.get(3).is_none());
    assert_eq!(frames.len(), 1);
}
