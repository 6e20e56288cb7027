use aura_core::vad::state_machine::{exceeds_ms, ChunkType, ChunkingConfig, ChunkingStateMachine};

const MS: u64 = 1_000_000;

fn frame(value: f32) -> Vec<f32> {
    vec![value; 512]
}

#[test]
fn default_config_values() {
    let c = ChunkingConfig::default();
    assert_eq!(c.silence_close_ms, 1200);
    assert_eq!(c.provisional_start_ms, 2000);
    assert_eq!(c.provisional_interval_ms, 200);
    assert_eq!(c.hard_cut_ms, 28_000);
    assert_eq!(c.hard_cut_overlap_ms, 2000);
}

#[test]
fn silence_in_idle_emits_nothing() {
    let mut sm: ChunkingStateMachine<f32> = ChunkingStateMachine::new(ChunkingConfig::default());
    for k in 0..100u64 {
        assert!(sm.feed_at(false, &frame(0.0), k * 32 * MS).is_none());
    }
}

#[test]
fn silence_closes_utterance_with_whole_audio() {
    let mut sm: ChunkingStateMachine<f32> = ChunkingStateMachine::new(ChunkingConfig::default());
    assert!(sm.feed_at(true, &frame(1.0), 0).is_none());
    // 1200 ms of silence at 32 ms per frame needs 38 silent frames.
    for k in 1..38u64 {
        assert!(sm.feed_at(false, &frame(0.0), k * 32 * MS).is_none(), "frame {}", k);
    }
    let chunk = sm.feed_at(false, &frame(0.0), 38 * 32 * MS).expect("final chunk");
    assert_eq!(chunk.chunk_type, ChunkType::Final);
    assert_eq!(chunk.samples.len(), 39 * 512);
    assert_eq!(chunk.samples[0], 1.0);
    assert_eq!(chunk.samples[512], 0.0);
    // back to idle: silence emits nothing, speech restarts an utterance
    assert!(sm.feed_at(false, &frame(0.0), 40 * 32 * MS).is_none());
}

#[test]
fn speech_resets_silence_count() {
    let mut sm: ChunkingStateMachine<f32> = ChunkingStateMachine::new(ChunkingConfig::default());
    let mut t = 0u64;
    assert!(sm.feed_at(true, &frame(1.0), t).is_none());
    for _ in 0..30 {
        t += 32 * MS;
        assert!(sm.feed_at(false, &frame(0.0), t).is_none());
    }
    t += 32 * MS;
    assert!(sm.feed_at(true, &frame(1.0), t).is_none());
    for _ in 0..30 {
        t += 32 * MS;
        assert!(sm.feed_at(false, &frame(0.0), t).is_none());
    }
}

#[test]
fn provisional_after_two_seconds_then_every_interval() {
    let mut sm: ChunkingStateMachine<f32> = ChunkingStateMachine::new(ChunkingConfig::default());
    assert!(sm.feed_at(true, &frame(1.0), 0).is_none());
    let mut first = None;
    for k in 1..=63u64 {
        if let Some(c) = sm.feed_at(true, &frame(1.0), k * 32 * MS) {
            first = Some((k, c));
            break;
        }
    }
    let (k, chunk) = first.expect("provisional chunk");
    // 63 * 32 = 2016 ms is the first reading past 2000 ms
    assert_eq!(k, 63);
    assert_eq!(chunk.chunk_type, ChunkType::Provisional);
    assert_eq!(chunk.samples.len(), 64 * 512);
    // next one only once more than 200 ms passed: 2016 + 224 = 2240 ms (k = 70)
    for k in 64..70u64 {
        assert!(sm.feed_at(true, &frame(1.0), k * 32 * MS).is_none());
    }
    let next = sm.feed_at(true, &frame(1.0), 70 * 32 * MS).expect("second provisional");
    assert_eq!(next.chunk_type, ChunkType::Provisional);
    assert_eq!(next.samples.len(), 71 * 512);
}

#[test]
fn hard_cut_keeps_overlap() {
    let config = ChunkingConfig {
        silence_close_ms: 64,
        provisional_start_ms: 100_000,
        provisional_interval_ms: 200,
        hard_cut_ms: 1000,
        hard_cut_overlap_ms: 100,
    };
    let mut sm: ChunkingStateMachine<f32> = ChunkingStateMachine::new(config);
    assert!(sm.feed_at(true, &frame(0.0), 0).is_none());
    let mut cut = None;
    for k in 1..40u64 {
        let f: Vec<f32> = (0..512).map(|i| (k * 512 + i) as f32).collect();
        if let Some(c) = sm.feed_at(true, &f, k * 32 * MS) {
            cut = Some((k, c));
            break;
        }
    }
    let (k, chunk) = cut.expect("hard cut");
    // 32 * 32 = 1024 ms is the first reading past 1000 ms
    assert_eq!(k, 32);
    assert_eq!(chunk.chunk_type, ChunkType::HardCut);
    assert_eq!(chunk.samples.len(), 33 * 512);
    // 100 ms overlap = 1600 samples seed the next segment; close it to see them
    let mut fin = None;
    for j in 1..=2u64 {
        if let Some(c) = sm.feed_at(false, &frame(-1.0), (32 + j) * 32 * MS) {
            fin = Some(c);
            break;
        }
    }
    let fin = fin.expect("final after hard cut");
    assert_eq!(fin.chunk_type, ChunkType::Final);
    assert_eq!(fin.samples.len(), 1600 + 2 * 512);
    assert_eq!(&fin.samples[..1600], &chunk.samples[chunk.samples.len() - 1600..]);
}

#[test]
fn hard_cut_with_short_segment_seeds_nothing() {
    let config = ChunkingConfig {
        silence_close_ms: 64,
        provisional_start_ms: 100_000,
        provisional_interval_ms: 200,
        hard_cut_ms: 10,
        hard_cut_overlap_ms: 1000,
    };
    let mut sm: ChunkingStateMachine<f32> = ChunkingStateMachine::new(config);
    assert!(sm.feed_at(true, &frame(1.0), 0).is_none());
    let cut = sm.feed_at(true, &frame(2.0), 32 * MS).expect("hard cut");
    assert_eq!(cut.chunk_type, ChunkType::HardCut);
    assert_eq!(cut.samples.len(), 1024);
    assert!(sm.feed_at(false, &frame(3.0), 33 * MS).is_none());
    let fin = sm.feed_at(false, &frame(4.0), 34 * MS).expect("final");
    assert_eq!(fin.samples.len(), 1024);
    assert_eq!(fin.samples[0], 3.0);
}

#[test]
fn clock_driven_feed_starts_utterance() {
    let mut sm: ChunkingStateMachine<i16> = ChunkingStateMachine::new(ChunkingConfig::default());
    assert!(sm.feed(true, &[7i16; 512]).is_none());
    assert!(sm.feed(true, &[7i16; 512]).is_none());
}

#[test]
fn elapsed_threshold_is_strict() {
    assert!(!exceeds_ms(0, 2000 * MS, 2000));
    assert!(exceeds_ms(0, 2000 * MS + 1, 2000));
    assert!(!exceeds_ms(5 * MS, 1 * MS, 0));
    assert!(exceeds_ms(u64::MAX - 1, u64::MAX, 0));
}

#[test]
fn first_chunk_after_onset_starts_with_onset_frame() {
    let mut sm: ChunkingStateMachine<f32> = ChunkingStateMachine::new(ChunkingConfig::default());
    let onset: Vec<f32> = (0..512).map(|i| i as f32).collect();
    assert!(sm.feed_at(true, &onset, 0).is_none());
    let mut fed: Vec<f32> = onset.clone();
    let mut chunk = None;
    for k in 1..=63u64 {
        let f = frame(k as f32 + 1000.0);
        fed.extend_from_slice(&f);
        if let Some(c) = sm.feed_at(k % 2 == 0, &f, k * 32 * MS) {
            chunk = Some(c);
            break;
        }
    }
    let chunk = chunk.expect("a chunk after the onset");
    assert_eq!(chunk.chunk_type, ChunkType::Provisional);
    assert_eq!(&chunk.samples[..512], &onset[..]);
    assert_eq!(chunk.samples, fed);
}

#[test]
fn extreme_configuration_never_closes_and_cuts_without_overlap() {
    let config = ChunkingConfig {
        silence_close_ms: u64::MAX,
        provisional_start_ms: u64::MAX,
        provisional_interval_ms: 200,
        hard_cut_ms: 10,
        hard_cut_overlap_ms: u64::MAX,
    };
    let mut sm: ChunkingStateMachine<f32> = ChunkingStateMachine::new(config);
    assert!(sm.feed_at(true, &frame(1.0), 0).is_none());
    for k in 1..5u64 {
        assert!(sm.feed_at(false, &frame(0.0), k * MS).is_none());
    }
    let cut = sm.feed_at(false, &frame(2.0), 11 * MS).expect("hard cut");
    assert_eq!(cut.chunk_type, ChunkType::HardCut);
    assert_eq!(cut.samples.len(), 6 * 512);
    // the overlap exceeds the segment, so the next segment starts empty
    let next = sm.feed_at(true, &frame(3.0), 22 * MS).expect("second hard cut");
    assert_eq!(next.samples, frame(3.0));
}
