//! Decisions of the pipeline worker.
//!
//! The worker pulls audio from the ring buffer, cuts it into detector
//! frames, runs the detector and the chunking machine, and reports a
//! caption for every chunk. This module holds what it decides: which mode
//! a start request launches, the captions it reports, the typing effect of
//! the self-test mode, and how much captured audio it keeps for a dump.

use crate::audio::capture::CaptureConfig;
use crate::samples::append_samples;
use crate::text::{append_decimal, decimal};
use crate::vad::state_machine::ChunkType;
use vstd::prelude::*;

verus! {

/// Sample rate of the audio the worker processes (Hz).
pub const PIPELINE_SAMPLE_RATE: u32 = 16000;

/// Audio the ring buffer holds, in milliseconds.
pub const RING_DURATION_MS: u32 = 5000;

/// What a start request launches.
pub enum PipelinePlan {
    /// Process id 0: simulated captions, no capture.
    SelfTest,
    /// Capture the target process and caption its speech.
    Live {
        /// What to capture.
        capture: CaptureConfig,
        /// Whether a speech recogniser model is to be loaded.
        load_recogniser: bool,
    },
}

/// Chooses the mode for a start request: process id 0 runs the self-test;
/// any other id captures that process (with its tree when asked) and loads
/// the recogniser only when a model path is set.
pub fn plan_pipeline(target_pid: u32, include_tree: bool, asr_model_path: &str) -> (plan: PipelinePlan)
    ensures
        target_pid == 0 ==> plan is SelfTest,
        target_pid != 0 ==> (plan matches PipelinePlan::Live { capture, load_recogniser } && capture
            == (CaptureConfig { target_pid, include_process_tree: include_tree })
            && load_recogniser == (asr_model_path@.len() > 0)),
{
    if target_pid == 0 {
        return PipelinePlan::SelfTest;
    }
    PipelinePlan::Live {
        capture: CaptureConfig { target_pid, include_process_tree: include_tree },
        load_recogniser: !asr_model_path.is_empty(),
    }
}

/// How many samples the worker pulls from the ring buffer when
/// `available` are buffered: everything, once at least one detector frame
/// (512 samples) is there; nothing before.
pub fn pull_amount(available: usize) -> (n: Option<usize>)
    ensures
        n == (if available >= crate::vad::silero::AUDIO_SAMPLES {
            Some(available)
        } else {
            None::<usize>
        }),
{
    if available >= crate::vad::silero::AUDIO_SAMPLES {
        Some(available)
    } else {
        None
    }
}

/// Duration in milliseconds of `sample_count` samples at 16 kHz.
pub open spec fn duration_ms_of(sample_count: nat) -> nat {
    sample_count * 1000 / 16000
}

/// A chunk's duration is its length in whole milliseconds at 16 kHz
/// (16 samples per millisecond), rounded down: 27 200 samples give 1700.
pub proof fn law_duration_is_whole_milliseconds(sample_count: nat)
    ensures
        duration_ms_of(sample_count) * 16 <= sample_count,
        sample_count < (duration_ms_of(sample_count) + 1) * 16,
{
    assert(sample_count * 1000 / 16000 == sample_count / 16) by (nonlinear_arith);
    assert((sample_count / 16) * 16 <= sample_count && sample_count < (sample_count / 16 + 1) * 16)
        by (nonlinear_arith);
}

/// Duration in milliseconds of `sample_count` samples at 16 kHz.
pub fn chunk_duration_ms(sample_count: usize) -> (ms: u64)
    requires
        sample_count * 1000 <= u64::MAX,
    ensures
        ms == duration_ms_of(sample_count as nat),
{
    (sample_count as u64 * 1000) / 16000
}

/// Whether a chunk ends an utterance, so that the detector is reset and
/// the recogniser runs on it.
pub fn ends_utterance(chunk_type: ChunkType) -> (r: bool)
    ensures
        r == (chunk_type == ChunkType::Final || chunk_type == ChunkType::HardCut),
{
    match chunk_type {
        ChunkType::Provisional => false,
        ChunkType::Final => true,
        ChunkType::HardCut => true,
    }
}

/// What the recogniser made of a chunk.
pub enum RecognitionOutcome {
    /// No recogniser is loaded.
    NoRecogniser,
    /// The recogniser returned this text.
    Text(String),
    /// The recogniser failed.
    Failed,
}

/// `"[~] <d>ms speech..."`: the caption of a provisional chunk.
pub open spec fn provisional_caption_text(duration_ms: nat) -> Seq<char> {
    "[~] "@ + decimal(duration_ms) + "ms speech..."@
}

/// `"[✓] <d>ms<suffix>"`: a final caption without recognised text.
pub open spec fn closed_caption_text(duration_ms: nat, suffix: Seq<char>) -> Seq<char> {
    "[\u{2713}] "@ + decimal(duration_ms) + "ms"@ + suffix
}

/// The caption of an utterance-ending chunk: the recognised text when it
/// is non-empty, otherwise a note on why there is none.
pub open spec fn final_caption_text(duration_ms: nat, outcome: RecognitionOutcome) -> Seq<char> {
    match outcome {
        RecognitionOutcome::Text(t) => if t@.len() > 0 {
            t@
        } else {
            closed_caption_text(duration_ms, " (no speech)"@)
        },
        RecognitionOutcome::Failed => closed_caption_text(duration_ms, " (ASR failed)"@),
        RecognitionOutcome::NoRecogniser => closed_caption_text(duration_ms, " sentence"@),
    }
}

/// Builds `"[✓] <d>ms<suffix>"`.
fn closed_caption(duration_ms: u64, suffix: &str) -> (s: String)
    ensures
        s@ == closed_caption_text(duration_ms as nat, suffix@),
{
    let mut s = String::from_str("[\u{2713}] ");
    append_decimal(&mut s, duration_ms);
    s.append("ms");
    s.append(suffix);
    s
}

/// The caption of a provisional chunk of `sample_count` samples.
pub fn provisional_caption(sample_count: usize) -> (s: String)
    requires
        sample_count * 1000 <= u64::MAX,
    ensures
        s@ == provisional_caption_text(duration_ms_of(sample_count as nat)),
{
    let d = chunk_duration_ms(sample_count);
    let mut s = String::from_str("[~] ");
    append_decimal(&mut s, d);
    s.append("ms speech...");
    s
}

/// The caption of an utterance-ending chunk of `sample_count` samples.
pub fn final_caption(sample_count: usize, outcome: RecognitionOutcome) -> (s: String)
    requires
        sample_count * 1000 <= u64::MAX,
    ensures
        s@ == final_caption_text(duration_ms_of(sample_count as nat), outcome),
{
    let d = chunk_duration_ms(sample_count);
    match outcome {
        RecognitionOutcome::Text(t) => {
            if t.as_str().is_empty() {
                closed_caption(d, " (no speech)")
            } else {
                t
            }
        },
        RecognitionOutcome::Failed => closed_caption(d, " (ASR failed)"),
        RecognitionOutcome::NoRecogniser => closed_caption(d, " sentence"),
    }
}

/// The caption reported for samples still pending when the worker stops.
pub fn flush_caption(sample_count: usize) -> (s: String)
    requires
        sample_count * 1000 <= u64::MAX,
    ensures
        s@ == closed_caption_text(duration_ms_of(sample_count as nat), " (flush)"@),
{
    closed_caption(chunk_duration_ms(sample_count), " (flush)")
}

/// What the worker does with a chunk that the chunking machine emitted.
pub enum ChunkStep {
    /// Report this caption as provisional; the detector keeps its state.
    Show(String),
    /// The utterance ended: reset the detector, run the recogniser on the
    /// chunk and report [`final_caption`] of what it made of it.
    ResetAndRecognise,
}

/// Decides what the worker does with a chunk of `chunk_type` holding
/// `sample_count` samples: a provisional chunk is only shown, with its
/// duration; a final or hard-cut chunk resets the detector and goes to the
/// recogniser.
pub fn chunk_step(chunk_type: ChunkType, sample_count: usize) -> (st: ChunkStep)
    requires
        sample_count * 1000 <= u64::MAX,
    ensures
        st is ResetAndRecognise <==> (chunk_type == ChunkType::Final || chunk_type
            == ChunkType::HardCut),
        st matches ChunkStep::Show(t) ==> t@ == provisional_caption_text(
            duration_ms_of(sample_count as nat),
        ),
{
    if ends_utterance(chunk_type) {
        ChunkStep::ResetAndRecognise
    } else {
        ChunkStep::Show(provisional_caption(sample_count))
    }
}

/// The caption reported when the worker stops with `pending` samples that
/// never filled a detector frame: none when nothing is pending.
pub fn flush_step(pending: usize) -> (c: Option<String>)
    requires
        pending * 1000 <= u64::MAX,
    ensures
        c is None <==> pending == 0,
        c matches Some(t) ==> t@ == closed_caption_text(duration_ms_of(pending as nat), " (flush)"@),
{
    if pending > 0 {
        Some(flush_caption(pending))
    } else {
        None
    }
}

/// The phrases the self-test mode types out, in a cycle.
pub open spec fn self_test_phrase(i: int) -> Seq<char> {
    if i == 0 {
        "Hello, this is a self-test of the Aura real-time translation system."@
    } else if i == 1 {
        "The audio capture and speech recognition pipeline is working correctly."@
    } else if i == 2 {
        "Subtitles should appear in the overlay window on your screen."@
    } else if i == 3 {
        "You can now test with a real application like Edge or Chrome."@
    } else {
        "Select a target process from the dropdown menu and click Start Translation."@
    }
}

/// The phrases the self-test mode types out, in a cycle.
pub fn self_test_phrases() -> (p: Vec<&'static str>)
    ensures
        p@.len() == 5,
        forall|i: int| 0 <= i < 5 ==> (#[trigger] p@[i])@ == self_test_phrase(i),
{
    let mut p: Vec<&'static str> = Vec::new();
    p.push("Hello, this is a self-test of the Aura real-time translation system.");
    p.push("The audio capture and speech recognition pipeline is working correctly.");
    p.push("Subtitles should appear in the overlay window on your screen.");
    p.push("You can now test with a real application like Edge or Chrome.");
    p.push("Select a target process from the dropdown menu and click Start Translation.");
    p
}

/// Characters revealed per provisional update of the typing effect.
pub const TYPING_STEP: usize = 2;

/// One caption update of the self-test mode.
pub struct CaptionUpdate {
    pub text: String,
    pub is_provisional: bool,
    pub latency_ms: i32,
}

/// The end positions (in characters) of the provisional updates for a
/// phrase of `total` characters: 2, 4, ... and finally `total`.
pub open spec fn typing_end(total: nat, i: nat) -> nat {
    if (i + 1) * 2 < total {
        (i + 1) * 2
    } else {
        total
    }
}

/// Number of provisional updates for a phrase of `total` characters.
pub open spec fn typing_steps(total: nat) -> nat {
    (total + 1) / 2
}

/// The updates the self-test mode shows for `phrase`: provisional
/// prefixes growing by two characters with latency ten times their length,
/// then the whole phrase as a final caption with latency ten times its
/// length plus fifty.
pub fn typing_updates(phrase: &str) -> (ups: Vec<CaptionUpdate>)
    requires
        phrase@.len() * 10 + 50 <= i32::MAX,
    ensures
        ups@.len() == typing_steps(phrase@.len()) + 1,
        forall|i: int|
            0 <= i < typing_steps(phrase@.len()) ==> {
                let end = typing_end(phrase@.len(), i as nat);
                &&& (#[trigger] ups@[i]).text@ == phrase@.subrange(0, end as int)
                &&& ups@[i].is_provisional
                &&& ups@[i].latency_ms == end * 10
            },
        ups@.last().text@ == phrase@,
        !ups@.last().is_provisional,
        ups@.last().latency_ms == phrase@.len() * 10 + 50,
{
    let total = phrase.unicode_len();
    let mut ups: Vec<CaptionUpdate> = Vec::new();
    let mut pos: usize = 0;
    let mut k: usize = 0;
    while pos < total
        invariant
            total == phrase@.len(),
            total * 10 + 50 <= i32::MAX,
            k == ups@.len(),
            pos == (if k * 2 < total { k * 2 } else { total as int }),
            k <= typing_steps(total as nat),
            pos < total ==> k < typing_steps(total as nat),
            pos == total ==> k == typing_steps(total as nat),
            forall|i: int|
                0 <= i < k ==> {
                    let end = typing_end(total as nat, i as nat);
                    &&& (#[trigger] ups@[i]).text@ == phrase@.subrange(0, end as int)
                    &&& ups@[i].is_provisional
                    &&& ups@[i].latency_ms == end * 10
                },
        decreases total - pos,
    {
        let end = if pos + TYPING_STEP < total {
            pos + TYPING_STEP
        } else {
            total
        };
        let partial = String::from_str(phrase.substring_char(0, end));
        let latency = (end * 10) as i32;
        ups.push(CaptionUpdate { text: partial, is_provisional: true, latency_ms: latency });
        pos = end;
        k = k + 1;
    }
    let latency = (total * 10 + 50) as i32;
    ups.push(CaptionUpdate { text: String::from_str(phrase), is_provisional: false, latency_ms: latency });
    ups
}

/// Keeps the first samples of the captured audio for a diagnostic dump.
pub struct CaptureDumper<S> {
    max_samples: usize,
    buffer: Vec<S>,
    saved: bool,
}

impl<S: Copy> CaptureDumper<S> {
    /// The number of samples to keep.
    pub closed spec fn max_samples(&self) -> nat {
        self.max_samples as nat
    }

    /// The samples kept so far.
    pub closed spec fn kept(&self) -> Seq<S> {
        self.buffer@
    }

    /// Whether the dump has been handed out for saving.
    pub closed spec fn saved(&self) -> bool {
        self.saved
    }

    /// Never more than the limit is kept.
    pub open spec fn wf(&self) -> bool {
        self.kept().len() <= self.max_samples()
    }

    /// A dumper that keeps the first `max_samples` samples.
    pub fn new(max_samples: usize) -> (d: Self)
        ensures
            d.wf(),
            d.max_samples() == max_samples,
            d.kept() == Seq::<S>::empty(),
            !d.saved(),
    {
        CaptureDumper { max_samples, buffer: Vec::new(), saved: false }
    }

    /// Takes in `samples` up to the limit. Returns `true` exactly once: on
    /// the call at which the limit is reached and the kept samples are due
    /// to be saved.
    pub fn feed(&mut self, samples: &[S]) -> (due: bool)
        requires
            old(self).wf(),
        ensures
            final(self).wf(),
            final(self).max_samples() == old(self).max_samples(),
            old(self).saved() ==> (!due && final(self).kept() == old(self).kept()
                && final(self).saved()),
            !old(self).saved() ==> {
                let room = old(self).max_samples() - old(self).kept().len();
                let take: int = if samples@.len() < room {
                    samples@.len() as int
                } else {
                    room
                };
                &&& final(self).kept() == old(self).kept() + samples@.subrange(0, take as int)
                &&& due == (final(self).kept().len() >= old(self).max_samples())
                &&& final(self).saved() == due
            },
    {
        if self.saved {
            return false;
        }
        let remaining = self.max_samples - self.buffer.len();
        let take = if samples.len() < remaining {
            samples.len()
        } else {
            remaining
        };
        let head = crate::samples::copy_range(samples, 0, take);
        append_samples(&mut self.buffer, head.as_slice());
        if self.buffer.len() >= self.max_samples {
            self.saved = true;
            return true;
        }
        false
    }

    /// The samples kept for the dump.
    pub fn samples(&self) -> (s: &[S])
        ensures
            s@ == self.kept(),
    {
        self.buffer.as_slice()
    }
}

} // verus!
