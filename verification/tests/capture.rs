use aura_core::audio::capture::{
    drain_stereo_frames, word_from_le, CaptureConfig, CaptureError, CaptureSession,
    DEVICE_SAMPLE_RATE, TARGET_SAMPLE_RATE,
};
use aura_core::audio::ring_buffer::audio_ring_buffer;
use std::collections::VecDeque;

fn push_stereo_frame(queue: &mut VecDeque<u8>, left: f32, right: f32) {
    for b in left.to_le_bytes() {
        queue.push_back(b);
    }
    for b in right.to_le_bytes() {
        queue.push_back(b);
    }
}

#[test]
fn complete_frames_are_decoded() {
    let mut queue = VecDeque::new();
    for _ in 0..480 {
        push_stereo_frame(&mut queue, 0.8, 0.2);
    }
    let frames = drain_stereo_frames(&mut queue);
    assert_eq!(queue.len(), 0);
    assert_eq!(frames.len(), 480);
    for (l, r) in frames {
        assert_eq!(f32::from_bits(l), 0.8);
        assert_eq!(f32::from_bits(r), 0.2);
    }
}

#[test]
fn empty_queue_yields_no_frames() {
    let mut queue: VecDeque<u8> = VecDeque::new();
    assert!(drain_stereo_frames(&mut queue).is_empty());
    assert_eq!(queue.len(), 0);
}

#[test]
fn partial_frame_bytes_stay_in_queue() {
    let mut queue = VecDeque::new();
    push_stereo_frame(&mut queue, 1.0, 1.0);
    push_stereo_frame(&mut queue, 0.5, 0.5);
    for b in 0.3_f32.to_le_bytes() {
        queue.push_back(b);
    }
    let frames = drain_stereo_frames(&mut queue);
    assert_eq!(frames.len(), 2);
    assert_eq!(frames[1], (0.5f32.to_bits(), 0.5f32.to_bits()));
    assert_eq!(queue.len(), 4, "Partial frame bytes should be preserved");
    assert_eq!(queue.iter().copied().collect::<Vec<u8>>(), 0.3f32.to_le_bytes().to_vec());
}

#[test]
fn little_endian_words() {
    assert_eq!(word_from_le(0x78, 0x56, 0x34, 0x12), 0x1234_5678);
    assert_eq!(word_from_le(0xff, 0xff, 0xff, 0xff), u32::MAX);
    assert_eq!(word_from_le(0, 0, 0, 0), 0);
}

#[test]
fn rates_are_three_to_one() {
    assert_eq!(DEVICE_SAMPLE_RATE / TARGET_SAMPLE_RATE, 3);
}

#[test]
fn start_refuses_while_running_and_after_producer_is_gone() {
    let (p, _c) = audio_ring_buffer(16000, 5000);
    let config = CaptureConfig { target_pid: 42, include_process_tree: true };
    let mut session = CaptureSession::new(config, p);
    assert!(!session.is_capturing());
    assert_eq!(session.capture_config(), config);
    assert!(session.begin_start().is_ok());
    session.mark_started();
    assert!(session.is_capturing());
    assert!(matches!(session.begin_start(), Err(CaptureError::AlreadyRunning)));
    assert!(session.needs_stop());
    session.mark_stopped();
    assert!(!session.needs_stop());
    assert!(matches!(session.begin_start(), Err(CaptureError::ProducerConsumed)));
}

#[test]
fn one_capture_per_producer_whatever_follows() {
    let (p, _c) = audio_ring_buffer(16000, 5000);
    let mut session = CaptureSession::new(CaptureConfig { target_pid: 7, include_process_tree: false }, p);
    let mut granted = 0;
    for round in 0..3 {
        if session.begin_start().is_ok() {
            granted += 1;
        }
        session.mark_started();
        session.mark_stopped();
        session.mark_stopped();
        assert!(!session.needs_stop(), "round {}", round);
    }
    assert_eq!(granted, 1);
    assert!(matches!(session.begin_start(), Err(CaptureError::ProducerConsumed)));
}
