use aura_core::audio::ring_buffer::{audio_ring_buffer, ring_buffer_with_capacity};

fn bits(v: &[f32]) -> Vec<u32> {
    v.iter().map(|s| s.to_bits()).collect()
}

#[test]
fn push_then_pull_returns_the_samples() {
    let (mut p, mut c) = audio_ring_buffer(16000, 5000);
    let samples: Vec<f32> = (0..1000).map(|i| i as f32 * 0.25).collect();
    assert_eq!(p.push(&bits(&samples)).dropped, 0);
    assert_eq!(c.available(), 1000);
    let got = c.pull(1000).expect("samples");
    let back: Vec<f32> = got.iter().map(|b| f32::from_bits(*b)).collect();
    assert_eq!(back, samples);
    assert_eq!(c.available(), 0);
    assert!(!c.take_overflow_flag());
}

#[test]
fn pull_needs_enough_samples() {
    let (mut p, mut c) = audio_ring_buffer(16000, 5000);
    p.push(&[1, 2, 3]);
    assert!(c.pull(4).is_none());
    assert_eq!(c.available(), 3);
    assert_eq!(c.pull(2), Some(vec![1, 2]));
    assert_eq!(c.pull(1), Some(vec![3]));
    assert_eq!(c.pull(0), Some(vec![]));
}

#[test]
fn overflow_drops_excess_and_raises_flag() {
    // 1000 Hz for 10 ms: room for 10 samples
    let (mut p, mut c) = audio_ring_buffer(1000, 10);
    let out = p.push(&(0..15u32).collect::<Vec<u32>>());
    assert_eq!(out.dropped, 5);
    assert!(out.newly_flagged);
    assert!(c.take_overflow_flag());
    assert!(!c.take_overflow_flag());
    assert!(c.pull(11).is_none());
    assert_eq!(c.pull(10), Some((0..10u32).collect::<Vec<u32>>()));
}

#[test]
fn fifo_order_across_wraparound() {
    let (mut p, mut c) = audio_ring_buffer(1000, 10);
    let mut next = 0u32;
    let mut expect = 0u32;
    for _ in 0..20 {
        let batch: Vec<u32> = (next..next + 7).collect();
        next += 7;
        assert_eq!(p.push(&batch).dropped, 0);
        let got = c.pull(7).expect("batch");
        for v in got {
            assert_eq!(v, expect);
            expect += 1;
        }
    }
}

#[test]
fn pull_follows_the_occupancy_reading() {
    let (mut p, mut c) = audio_ring_buffer(16000, 5000);
    p.push(&[10, 20, 30]);
    assert!(c.pull_buffered(2, 3).is_none());
    assert_eq!(c.available(), 3);
    assert_eq!(c.pull_buffered(3, 2), Some(vec![10, 20]));
    assert_eq!(c.pull_buffered(1, 0), Some(vec![]));
    assert_eq!(c.pull(1), Some(vec![30]));
}

#[test]
fn repeated_overflow_is_flagged_once_until_cleared() {
    let (mut p, c) = ring_buffer_with_capacity(4);
    let first = p.push(&[1, 2, 3, 4, 5]);
    assert_eq!(first.dropped, 1);
    assert!(first.newly_flagged);
    let second = p.push(&[6]);
    assert_eq!(second.dropped, 1);
    assert!(!second.newly_flagged);
    assert!(c.take_overflow_flag());
    let third = p.push(&[7]);
    assert!(third.newly_flagged);
}

#[test]
fn fitting_push_reports_nothing() {
    let (mut p, mut c) = ring_buffer_with_capacity(8);
    let out = p.push(&[9, 8, 7]);
    assert_eq!(out.dropped, 0);
    assert!(!out.newly_flagged);
    assert!(!c.take_overflow_flag());
    assert_eq!(c.available(), 3);
    assert_eq!(c.pull(3), Some(vec![9, 8, 7]));
}
