//! Chunking state machine for audio segmentation.
//!
//! The machine sits between the voice-activity detector and the speech
//! engine and decides when to hand audio over. It follows three rules:
//!
//! 1. Short-sentence close: enough consecutive silent frames end the
//!    utterance with a `Final` chunk.
//! 2. Long-sentence provisional: once speech has lasted past a threshold,
//!    `Provisional` chunks with the whole utterance so far are emitted at a
//!    fixed interval.
//! 3. Hard cut: speech lasting past a hard limit is force-split into a
//!    `HardCut` chunk, and the next segment is seeded with the tail of the
//!    cut audio as overlap.
//!
//! Time enters as monotonic clock readings in nanoseconds.

use crate::clock::MonotonicClock;
use crate::samples::{append_samples, copy_all, copy_range};
use vstd::prelude::*;

verus! {

/// Duration of one detector frame in milliseconds (512 samples at 16 kHz).
pub const FRAME_MS: u64 = 32;

/// Samples per second of the audio the machine buffers.
pub const CHUNK_SAMPLE_RATE: usize = 16000;

/// Nanoseconds per millisecond.
pub const NANOS_PER_MS: u64 = 1_000_000;

/// Timing parameters for the chunking state machine, in milliseconds.
#[derive(Debug, Clone, Copy, PartialEq, Eq)]
pub struct ChunkingConfig {
    /// Silence duration that confirms the end of a sentence.
    pub silence_close_ms: u64,
    /// Continuous speech after which provisional chunks start.
    pub provisional_start_ms: u64,
    /// Interval between provisional chunks.
    pub provisional_interval_ms: u64,
    /// Maximum continuous speech before a forced split.
    pub hard_cut_ms: u64,
    /// Audio carried over into the next segment after a forced split.
    pub hard_cut_overlap_ms: u64,
}

impl ChunkingConfig {
    /// Number of samples kept as overlap after a hard cut.
    pub open spec fn overlap_samples(self) -> nat {
        ((self.hard_cut_overlap_ms * CHUNK_SAMPLE_RATE) / 1000) as nat
    }
}

/// The silent-frame count after one more silent frame. The count stops at
/// `u32::MAX` (about four years of uninterrupted 32 ms frames) rather than
/// wrapping around.
pub open spec fn next_silence(count: u32) -> u32 {
    if count == u32::MAX {
        u32::MAX
    } else {
        (count + 1) as u32
    }
}

impl Default for ChunkingConfig {
    fn default() -> (c: ChunkingConfig)
        ensures
            c.silence_close_ms == 1200,
            c.provisional_start_ms == 2000,
            c.provisional_interval_ms == 200,
            c.hard_cut_ms == 28_000,
            c.hard_cut_overlap_ms == 2000,
    {
        ChunkingConfig {
            silence_close_ms: 1200,
            provisional_start_ms: 2000,
            provisional_interval_ms: 200,
            hard_cut_ms: 28_000,
            hard_cut_overlap_ms: 2000,
        }
    }
}

/// Type of audio chunk emitted by the state machine.
#[derive(Debug, Clone, Copy, PartialEq, Eq, Structural)]
pub enum ChunkType {
    /// Tentative chunk for immediate feedback (superseded later).
    Provisional,
    /// Definitive chunk after a confirmed sentence boundary.
    Final,
    /// Forced split because of the hard time limit.
    HardCut,
}

/// An audio chunk ready for recognition.
pub struct AudioChunk<S> {
    /// The type of this chunk.
    pub chunk_type: ChunkType,
    /// The samples of the chunk (16 kHz, mono).
    pub samples: Vec<S>,
}

impl<S> AudioChunk<S> {
    /// The chunk as a pair of its type and its samples.
    pub open spec fn view(&self) -> (ChunkType, Seq<S>) {
        (self.chunk_type, self.samples@)
    }
}

/// Phase of the chunking machine.
#[derive(Debug, Clone, Copy, PartialEq, Eq, Structural)]
pub enum ChunkerPhase {
    /// Waiting for speech onset.
    Silence,
    /// Speech is active, samples accumulate.
    SpeechActive,
    /// Speech is active and past the provisional threshold.
    ProvisionalEmitting,
}

/// Abstract state of the chunking machine.
pub struct ChunkerView<S> {
    pub phase: ChunkerPhase,
    /// Samples of the current utterance.
    pub buffer: Seq<S>,
    /// Clock reading at which the current segment started.
    pub speech_start: Option<u64>,
    /// Clock reading of the last provisional emission.
    pub last_provisional: Option<u64>,
    /// Consecutive silent frames in the current utterance.
    pub silence_frames: u32,
}

/// The idle state: silence, nothing buffered, no timestamps.
pub open spec fn idle_view<S>() -> ChunkerView<S> {
    ChunkerView {
        phase: ChunkerPhase::Silence,
        buffer: Seq::empty(),
        speech_start: None,
        last_provisional: None,
        silence_frames: 0,
    }
}

/// Whether more than `ms` milliseconds passed from `since` to `now`
/// (clock readings in nanoseconds; a reading before `since` counts as no
/// time elapsed).
pub open spec fn elapsed_exceeds(since: u64, now: u64, ms: u64) -> bool {
    (if now >= since { now - since } else { 0 }) > ms * NANOS_PER_MS
}

/// Whether the segment started at `start` (if any) exceeds `ms` at `now`.
pub open spec fn started_and_exceeds(start: Option<u64>, now: u64, ms: u64) -> bool {
    match start {
        Some(s) => elapsed_exceeds(s, now, ms),
        None => false,
    }
}

/// The overlap that seeds the next segment after a hard cut of `audio`.
pub open spec fn hard_cut_seed<S>(audio: Seq<S>, overlap: nat) -> Seq<S> {
    if audio.len() > overlap {
        audio.subrange(audio.len() - overlap, audio.len() as int)
    } else {
        Seq::empty()
    }
}

/// The state machine's response to one frame: the next state and the
/// chunk it emits, if any.
pub open spec fn step<S>(
    config: ChunkingConfig,
    m: ChunkerView<S>,
    is_speech: bool,
    frame: Seq<S>,
    now: u64,
) -> (ChunkerView<S>, Option<(ChunkType, Seq<S>)>) {
    match m.phase {
        ChunkerPhase::Silence => {
            if is_speech {
                (
                    ChunkerView {
                        phase: ChunkerPhase::SpeechActive,
                        buffer: frame,
                        speech_start: Some(now),
                        last_provisional: m.last_provisional,
                        silence_frames: 0,
                    },
                    None,
                )
            } else {
                (m, None)
            }
        },
        _ => {
            let audio = m.buffer + frame;
            let silence: u32 = if is_speech { 0 } else { next_silence(m.silence_frames) };
            if !is_speech && silence * FRAME_MS >= config.silence_close_ms {
                (idle_view(), Some((ChunkType::Final, audio)))
            } else if started_and_exceeds(m.speech_start, now, config.hard_cut_ms) {
                (
                    ChunkerView {
                        phase: ChunkerPhase::SpeechActive,
                        buffer: hard_cut_seed(audio, config.overlap_samples()),
                        speech_start: Some(now),
                        last_provisional: m.last_provisional,
                        silence_frames: 0,
                    },
                    Some((ChunkType::HardCut, audio)),
                )
            } else if m.phase == ChunkerPhase::SpeechActive && started_and_exceeds(
                m.speech_start,
                now,
                config.provisional_start_ms,
            ) {
                (
                    ChunkerView {
                        phase: ChunkerPhase::ProvisionalEmitting,
                        buffer: audio,
                        speech_start: m.speech_start,
                        last_provisional: Some(now),
                        silence_frames: silence,
                    },
                    Some((ChunkType::Provisional, audio)),
                )
            } else if m.phase == ChunkerPhase::ProvisionalEmitting && started_and_exceeds(
                m.last_provisional,
                now,
                config.provisional_interval_ms,
            ) {
                (
                    ChunkerView {
                        phase: m.phase,
                        buffer: audio,
                        speech_start: m.speech_start,
                        last_provisional: Some(now),
                        silence_frames: silence,
                    },
                    Some((ChunkType::Provisional, audio)),
                )
            } else {
                (
                    ChunkerView {
                        phase: m.phase,
                        buffer: audio,
                        speech_start: m.speech_start,
                        last_provisional: m.last_provisional,
                        silence_frames: silence,
                    },
                    None,
                )
            }
        },
    }
}

/// The invariant of a reachable machine state.
pub open spec fn view_inv<S>(config: ChunkingConfig, m: ChunkerView<S>) -> bool {
    &&& m.phase == ChunkerPhase::Silence ==> m == idle_view::<S>()
    &&& m.phase != ChunkerPhase::Silence ==> m.speech_start is Some
    &&& m.phase == ChunkerPhase::ProvisionalEmitting ==> m.last_provisional is Some
    &&& (m.silence_frames == 0 || m.silence_frames * FRAME_MS < config.silence_close_ms)
}

/// Maps a state and an optional chunk to the view of the pair.
pub open spec fn chunk_view<S>(c: Option<AudioChunk<S>>) -> Option<(ChunkType, Seq<S>)> {
    match c {
        Some(chunk) => Some(chunk.view()),
        None => None,
    }
}

/// The chunking state machine.
///
/// Feed it detector decisions and audio frame by frame; it emits
/// [`AudioChunk`]s when the rules above call for it.
pub struct ChunkingStateMachine<S> {
    config: ChunkingConfig,
    phase: ChunkerPhase,
    buffer: Vec<S>,
    speech_start: Option<u64>,
    last_provisional: Option<u64>,
    silence_frame_count: u32,
    clock: MonotonicClock,
}

impl<S: Copy> ChunkingStateMachine<S> {
    /// The abstract state of the machine.
    pub closed spec fn view(&self) -> ChunkerView<S> {
        ChunkerView {
            phase: self.phase,
            buffer: self.buffer@,
            speech_start: self.speech_start,
            last_provisional: self.last_provisional,
            silence_frames: self.silence_frame_count,
        }
    }

    /// The configuration the machine was built with.
    pub closed spec fn config(&self) -> ChunkingConfig {
        self.config
    }

    /// Well-formedness: the state is reachable under the configuration.
    pub open spec fn wf(&self) -> bool {
        view_inv(self.config(), self.view())
    }

    /// Creates a machine in the idle state.
    pub fn new(config: ChunkingConfig) -> (sm: Self)
        ensures
            sm.wf(),
            sm.config() == config,
            sm.view() == idle_view::<S>(),
    {
        ChunkingStateMachine {
            config,
            phase: ChunkerPhase::Silence,
            buffer: Vec::with_capacity(CHUNK_SAMPLE_RATE * 30),
            speech_start: None,
            last_provisional: None,
            silence_frame_count: 0,
            clock: MonotonicClock::start(),
        }
    }

    /// Feeds one frame, reading the machine's own monotonic clock.
    ///
    /// The result is that of [`Self::feed_at`] at some clock reading.
    pub fn feed(&mut self, is_speech: bool, frame_samples: &[S]) -> (out: Option<AudioChunk<S>>)
        requires
            old(self).wf(),
        ensures
            final(self).wf(),
            final(self).config() == old(self).config(),
            exists|now: u64|
                (final(self).view(), chunk_view(out)) == step(
                    old(self).config(),
                    old(self).view(),
                    is_speech,
                    frame_samples@,
                    now,
                ),
    {
        let now = self.clock.now_ns();
        self.feed_at(is_speech, frame_samples, now)
    }

    /// Feeds one frame observed at clock reading `now_ns` (nanoseconds).
    ///
    /// Returns the chunk the machine emits for this frame, if any.
    pub fn feed_at(&mut self, is_speech: bool, frame_samples: &[S], now_ns: u64) -> (out: Option<
        AudioChunk<S>,
    >)
        requires
            old(self).wf(),
        ensures
            final(self).wf(),
            final(self).config() == old(self).config(),
            (final(self).view(), chunk_view(out)) == step(
                old(self).config(),
                old(self).view(),
                is_speech,
                frame_samples@,
                now_ns,
            ),
    {
        match self.phase {
            ChunkerPhase::Silence => {
                if is_speech {
                    self.phase = ChunkerPhase::SpeechActive;
                    self.speech_start = Some(now_ns);
                    self.silence_frame_count = 0;
                    self.buffer.clear();
                    append_samples(&mut self.buffer, frame_samples);
                    assert(self.buffer@ == frame_samples@);
                }
                None
            },
            _ => {
                append_samples(&mut self.buffer, frame_samples);
                if !is_speech {
                    if self.silence_frame_count < u32::MAX {
                        self.silence_frame_count = self.silence_frame_count + 1;
                    }
                    let silence_ms = self.silence_frame_count as u64 * FRAME_MS;
                    if silence_ms >= self.config.silence_close_ms {
                        return Some(self.emit_final());
                    }
                } else {
                    self.silence_frame_count = 0;
                }
                if let Some(chunk) = self.check_hard_cut(now_ns) {
                    return Some(chunk);
                }
                if self.phase == ChunkerPhase::SpeechActive {
                    if let Some(start) = self.speech_start {
                        if exceeds_ms(start, now_ns, self.config.provisional_start_ms) {
                            self.phase = ChunkerPhase::ProvisionalEmitting;
                            self.last_provisional = Some(now_ns);
                            return Some(self.emit_provisional());
                        }
                    }
                } else {
                    if let Some(last) = self.last_provisional {
                        if exceeds_ms(last, now_ns, self.config.provisional_interval_ms) {
                            self.last_provisional = Some(now_ns);
                            return Some(self.emit_provisional());
                        }
                    }
                }
                None
            },
        }
    }

    /// A provisional chunk holding a copy of the whole current buffer.
    fn emit_provisional(&self) -> (chunk: AudioChunk<S>)
        ensures
            chunk.view() == (ChunkType::Provisional, self.buffer@),
    {
        AudioChunk { chunk_type: ChunkType::Provisional, samples: copy_all(self.buffer.as_slice()) }
    }

    /// A final chunk that takes the buffer, leaving the machine idle.
    fn emit_final(&mut self) -> (chunk: AudioChunk<S>)
        ensures
            chunk.view() == (ChunkType::Final, old(self).buffer@),
            final(self).view() == idle_view::<S>(),
            final(self).config == old(self).config,
    {
        let mut taken: Vec<S> = Vec::new();
        core::mem::swap(&mut taken, &mut self.buffer);
        let chunk = AudioChunk { chunk_type: ChunkType::Final, samples: taken };
        self.reset();
        chunk
    }

    /// Splits the segment when it has lasted past the hard limit.
    fn check_hard_cut(&mut self, now_ns: u64) -> (out: Option<AudioChunk<S>>)
        ensures
            final(self).config == old(self).config,
            started_and_exceeds(old(self).speech_start, now_ns, old(self).config.hard_cut_ms) ==> {
                &&& chunk_view(out) == Some((ChunkType::HardCut, old(self).buffer@))
                &&& final(self).view() == (ChunkerView {
                    phase: ChunkerPhase::SpeechActive,
                    buffer: hard_cut_seed(old(self).buffer@, old(self).config.overlap_samples()),
                    speech_start: Some(now_ns),
                    last_provisional: old(self).last_provisional,
                    silence_frames: 0u32,
                })
            },
            !started_and_exceeds(old(self).speech_start, now_ns, old(self).config.hard_cut_ms) ==> {
                &&& out is None
                &&& final(self).view() == old(self).view()
            },
    {
        if let Some(start) = self.speech_start {
            if exceeds_ms(start, now_ns, self.config.hard_cut_ms) {
                // computed in u128: the product of a u64 and 16000 always fits
                let overlap_wide: u128 = (self.config.hard_cut_overlap_ms as u128
                    * CHUNK_SAMPLE_RATE as u128) / 1000;
                let len = self.buffer.len();
                let overlap = if (len as u128) > overlap_wide {
                    let overlap_samples = overlap_wide as usize;
                    copy_range(self.buffer.as_slice(), len - overlap_samples, len)
                } else {
                    Vec::new()
                };
                let mut taken: Vec<S> = overlap;
                core::mem::swap(&mut taken, &mut self.buffer);
                let chunk = AudioChunk { chunk_type: ChunkType::HardCut, samples: taken };
                self.speech_start = Some(now_ns);
                self.silence_frame_count = 0;
                self.phase = ChunkerPhase::SpeechActive;
                return Some(chunk);
            }
        }
        None
    }

    /// Returns the machine to the idle state.
    fn reset(&mut self)
        ensures
            final(self).view() == idle_view::<S>(),
            final(self).config == old(self).config,
    {
        self.phase = ChunkerPhase::Silence;
        self.speech_start = None;
        self.last_provisional = None;
        self.silence_frame_count = 0;
        self.buffer.clear();
    }
}

/// Whether more than `ms` milliseconds passed from `since` to `now`
/// (nanosecond readings; a reading before `since` counts as zero).
pub fn exceeds_ms(since: u64, now: u64, ms: u64) -> (r: bool)
    ensures
        r == elapsed_exceeds(since, now, ms),
{
    let elapsed = now.saturating_sub(since);
    (elapsed as u128) > (ms as u128) * (NANOS_PER_MS as u128)
}

} // verus!
