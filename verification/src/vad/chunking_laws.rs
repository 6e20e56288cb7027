//! Laws of the chunking state machine, stated over its step function.

use crate::vad::state_machine::{
    elapsed_exceeds, idle_view, next_silence, step, view_inv, ChunkType, ChunkerPhase, ChunkerView,
    ChunkingConfig, FRAME_MS,
};
use vstd::prelude::*;

verus! {

/// One frame as the machine sees it: the detector's decision, the samples
/// and the clock reading (nanoseconds).
pub struct FrameEvent<S> {
    pub is_speech: bool,
    pub frame: Seq<S>,
    pub now: u64,
}

/// The state reached and the chunks emitted when the machine processes
/// `events` in order, starting from `m`.
pub open spec fn run<S>(config: ChunkingConfig, m: ChunkerView<S>, events: Seq<FrameEvent<S>>) -> (
    ChunkerView<S>,
    Seq<Option<(ChunkType, Seq<S>)>>,
)
    decreases events.len(),
{
    if events.len() == 0 {
        (m, Seq::empty())
    } else {
        let e = events[0];
        let (m1, out) = step(config, m, e.is_speech, e.frame, e.now);
        let (mf, outs) = run(config, m1, events.drop_first());
        (mf, seq![out] + outs)
    }
}

/// All samples of `events`, in order.
pub open spec fn concat_frames<S>(events: Seq<FrameEvent<S>>) -> Seq<S>
    decreases events.len(),
{
    if events.len() == 0 {
        Seq::empty()
    } else {
        events[0].frame + concat_frames(events.drop_first())
    }
}

/// The samples of an emitted chunk (empty when nothing was emitted).
pub open spec fn emitted_samples<S>(out: Option<(ChunkType, Seq<S>)>) -> Seq<S> {
    match out {
        Some((_, c)) => c,
        None => Seq::empty(),
    }
}

/// Whether a chunk of type `t` was emitted.
pub open spec fn emits<S>(out: Option<(ChunkType, Seq<S>)>, t: ChunkType) -> bool {
    match out {
        Some((u, _)) => u == t,
        None => false,
    }
}

/// Whether an emitted chunk (if any) is provisional.
pub open spec fn at_most_provisional<S>(out: Option<(ChunkType, Seq<S>)>) -> bool {
    match out {
        Some((t, _)) => t == ChunkType::Provisional,
        None => true,
    }
}

/// Every step keeps a reachable state reachable.
pub proof fn law_step_preserves_invariant<S>(
    config: ChunkingConfig,
    m: ChunkerView<S>,
    is_speech: bool,
    frame: Seq<S>,
    now: u64,
)
    requires
        view_inv(config, m),
    ensures
        view_inv(config, step(config, m, is_speech, frame, now).0),
{
}

/// Silence in the idle state changes nothing and emits nothing.
pub proof fn law_silence_keeps_idle<S>(config: ChunkingConfig, frame: Seq<S>, now: u64)
    ensures
        step(config, idle_view::<S>(), false, frame, now) == (idle_view::<S>(), None::<
            (ChunkType, Seq<S>),
        >),
{
}

/// Speech onset starts an utterance holding exactly the onset frame.
pub proof fn law_onset_starts_utterance<S>(config: ChunkingConfig, frame: Seq<S>, now: u64)
    ensures
        ({
            let (m1, out) = step(config, idle_view::<S>(), true, frame, now);
            &&& out is None
            &&& m1.phase == ChunkerPhase::SpeechActive
            &&& m1.buffer == frame
            &&& m1.speech_start == Some(now)
        }),
{
}

/// In an utterance, a final chunk is emitted exactly when the silent
/// frames reach the close threshold; it holds the whole utterance and the
/// machine returns to idle.
pub proof fn law_final_closes_utterance<S>(
    config: ChunkingConfig,
    m: ChunkerView<S>,
    is_speech: bool,
    frame: Seq<S>,
    now: u64,
)
    requires
        view_inv(config, m),
        m.phase != ChunkerPhase::Silence,
    ensures
        ({
            let (m1, out) = step(config, m, is_speech, frame, now);
            &&& emits(out, ChunkType::Final) <==> (!is_speech && next_silence(m.silence_frames)
                * FRAME_MS >= config.silence_close_ms)
            &&& emits(out, ChunkType::Final) ==> (emitted_samples(out) == m.buffer + frame
                && m1 == idle_view::<S>())
        }),
{
}

/// A hard cut hands over the whole segment and seeds the next one with
/// the last `overlap_samples` samples of it (nothing when the segment is
/// not longer than the overlap).
pub proof fn law_hard_cut_overlap<S>(
    config: ChunkingConfig,
    m: ChunkerView<S>,
    is_speech: bool,
    frame: Seq<S>,
    now: u64,
)
    requires
        view_inv(config, m),
    ensures
        ({
            let (m1, out) = step(config, m, is_speech, frame, now);
            let c = emitted_samples(out);
            emits(out, ChunkType::HardCut) ==> {
                &&& c == m.buffer + frame
                &&& m1.phase == ChunkerPhase::SpeechActive
                &&& m1.speech_start == Some(now)
                &&& (c.len() > config.overlap_samples() ==> m1.buffer.len()
                    == config.overlap_samples() && m1.buffer == c.subrange(
                    c.len() - config.overlap_samples(),
                    c.len() as int,
                ))
                &&& (c.len() <= config.overlap_samples() ==> m1.buffer.len() == 0)
            }
        }),
{
}

/// A provisional chunk is a copy of the whole utterance so far and leaves
/// the buffered audio in place.
pub proof fn law_provisional_keeps_audio<S>(
    config: ChunkingConfig,
    m: ChunkerView<S>,
    is_speech: bool,
    frame: Seq<S>,
    now: u64,
)
    requires
        view_inv(config, m),
    ensures
        ({
            let (m1, out) = step(config, m, is_speech, frame, now);
            let c = emitted_samples(out);
            emits(out, ChunkType::Provisional) ==> {
                &&& c == m.buffer + frame
                &&& m1.buffer == c
                &&& m1.phase == ChunkerPhase::ProvisionalEmitting
                &&& m1.last_provisional == Some(now)
            }
        }),
{
}

/// Provisional chunks start only once the segment has lasted longer than
/// `provisional_start_ms`, and a hard cut happens only once it has lasted
/// longer than `hard_cut_ms`.
pub proof fn law_timed_emissions_wait_for_their_thresholds<S>(
    config: ChunkingConfig,
    m: ChunkerView<S>,
    is_speech: bool,
    frame: Seq<S>,
    now: u64,
)
    requires
        view_inv(config, m),
    ensures
        ({
            let (m1, out) = step(config, m, is_speech, frame, now);
            &&& (m.phase == ChunkerPhase::SpeechActive && emits(out, ChunkType::Provisional)) ==> (
            m.speech_start matches Some(s) && elapsed_exceeds(s, now, config.provisional_start_ms))
            &&& emits(out, ChunkType::HardCut) ==> (m.speech_start matches Some(s)
                && elapsed_exceeds(s, now, config.hard_cut_ms))
        }),
{
}

/// Two provisional chunks on consecutive frames are more than
/// `provisional_interval_ms` apart.
pub proof fn law_provisional_spacing<S>(
    config: ChunkingConfig,
    m: ChunkerView<S>,
    e1: FrameEvent<S>,
    e2: FrameEvent<S>,
)
    requires
        view_inv(config, m),
        emits(step(config, m, e1.is_speech, e1.frame, e1.now).1, ChunkType::Provisional),
        emits(
            step(
                config,
                step(config, m, e1.is_speech, e1.frame, e1.now).0,
                e2.is_speech,
                e2.frame,
                e2.now,
            ).1,
            ChunkType::Provisional,
        ),
    ensures
        elapsed_exceeds(e1.now, e2.now, config.provisional_interval_ms),
{
}

/// Over any run of an utterance in which only provisional chunks are
/// emitted, the buffer grows by exactly the frames fed, and the chunk
/// emitted at the i-th frame is the utterance up to and including it.
pub proof fn law_utterance_accumulates<S>(
    config: ChunkingConfig,
    m: ChunkerView<S>,
    events: Seq<FrameEvent<S>>,
)
    requires
        view_inv(config, m),
        m.phase != ChunkerPhase::Silence,
        forall|i: int| 0 <= i < events.len() ==> at_most_provisional(#[trigger] run(config, m, events).1[i]),
    ensures
        ({
            let (mf, outs) = run(config, m, events);
            &&& outs.len() == events.len()
            &&& mf.phase != ChunkerPhase::Silence
            &&& view_inv(config, mf)
            &&& mf.buffer == m.buffer + concat_frames(events)
            &&& forall|i: int|
                0 <= i < events.len() && #[trigger] outs[i] is Some ==> emitted_samples(outs[i]) == m.buffer
                    + concat_frames(events.take(i + 1))
        }),
    decreases events.len(),
{
    lemma_run_len(config, m, events);
    if events.len() > 0 {
        let e = events[0];
        let (m1, out) = step(config, m, e.is_speech, e.frame, e.now);
        let rest = events.drop_first();
        lemma_run_len(config, m1, rest);
        let (mf, outs) = run(config, m, events);
        let (mf1, outs1) = run(config, m1, rest);
        assert(outs == seq![out] + outs1);
        assert(at_most_provisional(outs[0]));
        assert forall|i: int| 0 <= i < rest.len() implies at_most_provisional(
            #[trigger] run(config, m1, rest).1[i],
        ) by {
            assert(outs[i + 1] == outs1[i]);
        }
        law_utterance_accumulates(config, m1, rest);
        assert(m1.buffer == m.buffer + e.frame);
        assert(concat_frames(events) == e.frame + concat_frames(rest));
        assert(mf.buffer == m.buffer + concat_frames(events)) by {
            assert(m1.buffer + concat_frames(rest) == m.buffer + (e.frame + concat_frames(rest)));
        }
        assert forall|i: int|
            0 <= i < events.len() && #[trigger] outs[i] is Some implies emitted_samples(outs[i]) == m.buffer
                + concat_frames(events.take(i + 1)) by {
            if i == 0 {
                assert(events.take(1).drop_first() =~= Seq::<FrameEvent<S>>::empty());
                assert(concat_frames(events.take(1)) == e.frame + concat_frames(
                    events.take(1).drop_first(),
                ));
                assert(e.frame + Seq::<S>::empty() == e.frame);
            } else {
                assert(outs[i] == outs1[i - 1]);
                assert(events.take(i + 1).drop_first() =~= rest.take(i));
                assert(concat_frames(events.take(i + 1)) == e.frame + concat_frames(rest.take(i)));
                assert(m1.buffer + concat_frames(rest.take(i)) == m.buffer + (e.frame
                    + concat_frames(rest.take(i))));
            }
        }
    } else {
        let (mf, outs) = run(config, m, events);
        assert(concat_frames(events) =~= Seq::<S>::empty());
        assert(m.buffer + Seq::<S>::empty() == m.buffer);
    }
}

/// From idle, if the first frame is speech and the machine then emits only
/// provisional chunks until a final one, the final chunk holds every sample
/// fed since the onset, and each provisional chunk is a prefix of it.
pub proof fn law_final_is_whole_utterance<S>(config: ChunkingConfig, events: Seq<FrameEvent<S>>)
    requires
        events.len() >= 2,
        events[0].is_speech,
        forall|i: int|
            0 <= i < events.len() - 1 ==> at_most_provisional(
                #[trigger] run(config, idle_view::<S>(), events).1[i],
            ),
        emits(run(config, idle_view::<S>(), events).1.last(), ChunkType::Final),
    ensures
        ({
            let outs = run(config, idle_view::<S>(), events).1;
            let fin = emitted_samples(outs.last());
            &&& fin == concat_frames(events)
            &&& forall|i: int|
                0 <= i < events.len() - 1 && #[trigger] outs[i] is Some ==> fin.subrange(
                    0,
                    emitted_samples(outs[i]).len() as int,
                ) == emitted_samples(outs[i])
        }),
{
    let e = events[0];
    let m0 = idle_view::<S>();
    let (m1, out0) = step(config, m0, e.is_speech, e.frame, e.now);
    let rest = events.drop_first();
    let outs = run(config, m0, events).1;
    let (mf1, outs1) = run(config, m1, rest);
    lemma_run_len(config, m0, events);
    lemma_run_len(config, m1, rest);
    lemma_run_len(config, m1, rest.drop_last());
    assert(outs == seq![out0] + outs1);
    let mid = rest.drop_last();
    // the run over `rest` splits into the middle part and the last frame
    lemma_run_split(config, m1, rest);
    let (mm, outs_mid) = run(config, m1, mid);
    assert forall|i: int| 0 <= i < mid.len() implies at_most_provisional(
        #[trigger] run(config, m1, mid).1[i],
    ) by {
        assert(outs_mid[i] == outs1[i]);
        assert(outs[i + 1] == outs1[i]);
    }
    law_utterance_accumulates(config, m1, mid);
    let last = rest.last();
    let (ml, out_last) = step(config, mm, last.is_speech, last.frame, last.now);
    assert(outs.last() == outs1.last());
    assert(out_last == outs1.last());
    law_final_closes_utterance(config, mm, last.is_speech, last.frame, last.now);
    let fin = emitted_samples(outs.last());
    assert(fin == mm.buffer + last.frame);
    lemma_concat_split(rest);
    assert(concat_frames(events) == e.frame + concat_frames(rest));
    assert(m1.buffer == e.frame);
    assert(fin == concat_frames(events)) by {
        assert(mm.buffer == e.frame + concat_frames(mid));
        assert(concat_frames(rest) == concat_frames(mid) + last.frame);
    }
    assert forall|i: int|
        0 <= i < events.len() - 1 && #[trigger] outs[i] is Some implies fin.subrange(
            0,
            emitted_samples(outs[i]).len() as int,
        ) == emitted_samples(outs[i]) by {
        assert(i >= 1);
        assert(outs[i] == outs_mid[i - 1]);
        let c = emitted_samples(outs[i]);
        assert(c == e.frame + concat_frames(mid.take(i)));
        lemma_concat_take_prefix(mid, i);
        assert(concat_frames(mid) == concat_frames(mid.take(i)) + concat_frames(mid.skip(i)));
        assert(fin == c + (concat_frames(mid.skip(i)) + last.frame));
        assert(fin.subrange(0, c.len() as int) =~= c);
    }
}

/// In an utterance, whatever chunk a frame brings out (final, hard cut or
/// provisional) holds the utterance buffered so far followed by that frame.
pub proof fn law_emission_holds_utterance<S>(
    config: ChunkingConfig,
    m: ChunkerView<S>,
    is_speech: bool,
    frame: Seq<S>,
    now: u64,
)
    requires
        m.phase != ChunkerPhase::Silence,
        step(config, m, is_speech, frame, now).1 is Some,
    ensures
        emitted_samples(step(config, m, is_speech, frame, now).1) == m.buffer + frame,
{
}

/// From idle, a speech frame is held back rather than emitted, and the next
/// chunk that comes out, of whatever type, starts with it: it holds every
/// sample fed from the onset frame up to the frame that brought it out.
pub proof fn law_next_chunk_starts_with_onset<S>(config: ChunkingConfig, events: Seq<FrameEvent<S>>)
    requires
        events.len() >= 1,
        events[0].is_speech,
        forall|i: int|
            0 <= i < events.len() - 1 ==> (#[trigger] run(config, idle_view::<S>(), events).1[i]) is None,
        run(config, idle_view::<S>(), events).1.last() is Some,
    ensures
        events.len() >= 2,
        emitted_samples(run(config, idle_view::<S>(), events).1.last()) == concat_frames(events),
{
    let e = events[0];
    let m0 = idle_view::<S>();
    let (m1, out0) = step(config, m0, e.is_speech, e.frame, e.now);
    let rest = events.drop_first();
    let outs = run(config, m0, events).1;
    let (mf1, outs1) = run(config, m1, rest);
    lemma_run_len(config, m0, events);
    lemma_run_len(config, m1, rest);
    assert(outs == seq![out0] + outs1);
    assert(out0 is None);
    if events.len() == 1 {
        assert(outs.last() == out0);
    }
    assert(events.len() >= 2);
    let mid = rest.drop_last();
    lemma_run_len(config, m1, mid);
    lemma_run_split(config, m1, rest);
    let (mm, outs_mid) = run(config, m1, mid);
    assert forall|i: int| 0 <= i < mid.len() implies at_most_provisional(
        #[trigger] run(config, m1, mid).1[i],
    ) by {
        assert(outs_mid[i] == outs1[i]);
        assert(outs[i + 1] == outs1[i]);
    }
    law_utterance_accumulates(config, m1, mid);
    let last = rest.last();
    let (ml, out_last) = step(config, mm, last.is_speech, last.frame, last.now);
    assert(outs.last() == outs1.last());
    assert(out_last == outs1.last());
    law_emission_holds_utterance(config, mm, last.is_speech, last.frame, last.now);
    lemma_concat_split(rest);
    assert(concat_frames(events) == e.frame + concat_frames(rest));
    assert(m1.buffer == e.frame);
    assert(mm.buffer == e.frame + concat_frames(mid));
    assert(concat_frames(rest) == concat_frames(mid) + last.frame);
    assert(emitted_samples(out_last) == concat_frames(events));
}

/// In an utterance, a silent frame that neither closes the utterance nor
/// cuts it adds one to the count of consecutive silent frames, whatever
/// else it emits (a provisional chunk leaves the count alone); the count
/// stops at `u32::MAX`.
pub proof fn law_silent_frame_counts<S>(
    config: ChunkingConfig,
    m: ChunkerView<S>,
    frame: Seq<S>,
    now: u64,
)
    requires
        view_inv(config, m),
        m.phase != ChunkerPhase::Silence,
    ensures
        ({
            let (m1, out) = step(config, m, false, frame, now);
            (!emits(out, ChunkType::Final) && !emits(out, ChunkType::HardCut)) ==> {
                &&& m1.phase != ChunkerPhase::Silence
                &&& m1.silence_frames == (if m.silence_frames == u32::MAX {
                    u32::MAX as int
                } else {
                    m.silence_frames + 1
                })
            }
        }),
{
}

/// Silence closes the sentence: in an utterance, a run of silent frames
/// lasting at least `silence_close_ms` (32 ms per frame) and bringing no
/// hard cut emits a final chunk among them.
pub proof fn law_silence_closes_utterance<S>(
    config: ChunkingConfig,
    m: ChunkerView<S>,
    events: Seq<FrameEvent<S>>,
)
    requires
        view_inv(config, m),
        m.phase != ChunkerPhase::Silence,
        events.len() >= 1,
        events.len() <= u32::MAX,
        events.len() * FRAME_MS >= config.silence_close_ms,
        forall|i: int| 0 <= i < events.len() ==> !(#[trigger] events[i]).is_speech,
        forall|i: int|
            0 <= i < events.len() ==> !emits(
                #[trigger] run(config, m, events).1[i],
                ChunkType::HardCut,
            ),
    ensures
        exists|i: int|
            0 <= i < events.len() && emits(#[trigger] run(config, m, events).1[i], ChunkType::Final),
{
    if forall|i: int|
        0 <= i < events.len() ==> !emits(#[trigger] run(config, m, events).1[i], ChunkType::Final) {
        lemma_silence_accumulates(config, m, events);
        let mf = run(config, m, events).0;
        assert(mf.silence_frames >= events.len());
        assert(mf.silence_frames * FRAME_MS >= events.len() * FRAME_MS);
    }
}

/// A run of silent frames in an utterance that emits neither a final chunk
/// nor a hard cut stays in the utterance and counts every frame (up to
/// `u32::MAX`).
pub proof fn lemma_silence_accumulates<S>(
    config: ChunkingConfig,
    m: ChunkerView<S>,
    events: Seq<FrameEvent<S>>,
)
    requires
        view_inv(config, m),
        m.phase != ChunkerPhase::Silence,
        forall|i: int| 0 <= i < events.len() ==> !(#[trigger] events[i]).is_speech,
        forall|i: int|
            0 <= i < events.len() ==> !emits(
                #[trigger] run(config, m, events).1[i],
                ChunkType::HardCut,
            ),
        forall|i: int|
            0 <= i < events.len() ==> !emits(#[trigger] run(config, m, events).1[i], ChunkType::Final),
    ensures
        ({
            let mf = run(config, m, events).0;
            &&& view_inv(config, mf)
            &&& mf.phase != ChunkerPhase::Silence
            &&& mf.silence_frames == (if m.silence_frames + events.len() >= u32::MAX {
                u32::MAX as int
            } else {
                m.silence_frames + events.len()
            })
        }),
    decreases events.len(),
{
    lemma_run_len(config, m, events);
    if events.len() > 0 {
        let e = events[0];
        let (m1, out) = step(config, m, e.is_speech, e.frame, e.now);
        let rest = events.drop_first();
        let outs = run(config, m, events).1;
        let outs1 = run(config, m1, rest).1;
        lemma_run_len(config, m1, rest);
        assert(outs == seq![out] + outs1);
        assert(outs[0] == out);
        assert(!e.is_speech);
        law_silent_frame_counts(config, m, e.frame, e.now);
        law_step_preserves_invariant(config, m, e.is_speech, e.frame, e.now);
        assert forall|i: int| 0 <= i < rest.len() implies !(#[trigger] rest[i]).is_speech by {
            assert(rest[i] == events[i + 1]);
        }
        assert forall|i: int| 0 <= i < rest.len() implies !emits(
            #[trigger] run(config, m1, rest).1[i],
            ChunkType::HardCut,
        ) && !emits(run(config, m1, rest).1[i], ChunkType::Final) by {
            assert(outs[i + 1] == outs1[i]);
        }
        lemma_silence_accumulates(config, m1, rest);
    }
}

/// A hard cut comes as soon as it is due: in an utterance (speech phase or
/// provisional phase alike), a frame arriving more than `hard_cut_ms` after
/// the segment started and not closing the utterance emits a hard cut.
pub proof fn law_hard_cut_when_due<S>(
    config: ChunkingConfig,
    m: ChunkerView<S>,
    is_speech: bool,
    frame: Seq<S>,
    now: u64,
)
    requires
        view_inv(config, m),
        m.phase != ChunkerPhase::Silence,
    ensures
        ({
            let (m1, out) = step(config, m, is_speech, frame, now);
            (m.speech_start matches Some(s) && (if now >= s {
                now - s
            } else {
                0
            }) > config.hard_cut_ms * 1_000_000 && !emits(out, ChunkType::Final)) ==> emits(
                out,
                ChunkType::HardCut,
            )
        }),
{
}

/// Provisional chunks come as soon as they are due: in the speech phase,
/// a frame arriving more than `provisional_start_ms` after the onset, and
/// in the provisional phase, one arriving more than
/// `provisional_interval_ms` after the last provisional chunk, emits a
/// chunk (provisional, unless the frame closes or cuts the utterance).
pub proof fn law_provisional_when_due<S>(
    config: ChunkingConfig,
    m: ChunkerView<S>,
    is_speech: bool,
    frame: Seq<S>,
    now: u64,
)
    requires
        view_inv(config, m),
    ensures
        ({
            let (m1, out) = step(config, m, is_speech, frame, now);
            &&& (m.speech_start matches Some(s) && m.phase == ChunkerPhase::SpeechActive && (if now
                >= s {
                now - s
            } else {
                0
            }) > config.provisional_start_ms * 1_000_000) ==> out is Some
            &&& (m.last_provisional matches Some(t) && m.phase == ChunkerPhase::ProvisionalEmitting
                && (if now >= t {
                now - t
            } else {
                0
            }) > config.provisional_interval_ms * 1_000_000) ==> out is Some
        }),
{
}

/// A run emits one entry per event.
pub proof fn lemma_run_len<S>(config: ChunkingConfig, m: ChunkerView<S>, events: Seq<FrameEvent<S>>)
    ensures
        run(config, m, events).1.len() == events.len(),
    decreases events.len(),
{
    if events.len() > 0 {
        let e = events[0];
        let (m1, out) = step(config, m, e.is_speech, e.frame, e.now);
        lemma_run_len(config, m1, events.drop_first());
    }
}

/// Running a sequence equals running its prefix and then its last event.
pub proof fn lemma_run_split<S>(config: ChunkingConfig, m: ChunkerView<S>, events: Seq<FrameEvent<S>>)
    requires
        events.len() >= 1,
    ensures
        ({
            let (mm, outs_mid) = run(config, m, events.drop_last());
            let e = events.last();
            let (mf, out) = step(config, mm, e.is_speech, e.frame, e.now);
            &&& run(config, m, events).0 == mf
            &&& run(config, m, events).1 == outs_mid.push(out)
        }),
    decreases events.len(),
{
    if events.len() == 1 {
        assert(events.drop_last() =~= Seq::<FrameEvent<S>>::empty());
        let e = events[0];
        assert(events.drop_first() =~= Seq::<FrameEvent<S>>::empty());
        let (m1, out) = step(config, m, e.is_speech, e.frame, e.now);
        assert(run(config, m1, events.drop_first()) == (m1, Seq::<Option<(ChunkType, Seq<S>)>>::empty()));
        assert(seq![out] + Seq::<Option<(ChunkType, Seq<S>)>>::empty() =~= Seq::<Option<(ChunkType, Seq<S>)>>::empty().push(out));
    } else {
        let e = events[0];
        let (m1, out0) = step(config, m, e.is_speech, e.frame, e.now);
        let rest = events.drop_first();
        lemma_run_split(config, m1, rest);
        assert(events.drop_last().drop_first() =~= rest.drop_last());
        assert(events.drop_last()[0] == e);
        let (mm, outs_mid) = run(config, m1, rest.drop_last());
        assert(run(config, m, events.drop_last()).1 == seq![out0] + outs_mid);
        let l = rest.last();
        assert(l == events.last());
        let (mf, outl) = step(config, mm, l.is_speech, l.frame, l.now);
        assert(seq![out0] + outs_mid.push(outl) =~= (seq![out0] + outs_mid).push(outl));
    }
}

/// The samples of a sequence of frames split at the last frame.
pub proof fn lemma_concat_split<S>(events: Seq<FrameEvent<S>>)
    requires
        events.len() >= 1,
    ensures
        concat_frames(events) == concat_frames(events.drop_last()) + events.last().frame,
    decreases events.len(),
{
    if events.len() == 1 {
        assert(events.drop_last() =~= Seq::<FrameEvent<S>>::empty());
        assert(events.drop_first() =~= Seq::<FrameEvent<S>>::empty());
        assert(concat_frames(events) == events[0].frame + concat_frames(events.drop_first()));
        assert(events[0].frame + Seq::<S>::empty() =~= Seq::<S>::empty() + events[0].frame);
    } else {
        let rest = events.drop_first();
        lemma_concat_split(rest);
        assert(events.drop_last().drop_first() =~= rest.drop_last());
        assert(events.drop_last()[0] == events[0]);
        assert(concat_frames(events.drop_last()) == events[0].frame + concat_frames(rest.drop_last()));
        assert(rest.last() == events.last());
        assert(events[0].frame + (concat_frames(rest.drop_last()) + rest.last().frame)
            =~= (events[0].frame + concat_frames(rest.drop_last())) + rest.last().frame);
    }
}

/// The samples of a sequence of frames split at any position.
pub proof fn lemma_concat_take_prefix<S>(events: Seq<FrameEvent<S>>, k: int)
    requires
        0 <= k <= events.len(),
    ensures
        concat_frames(events) == concat_frames(events.take(k)) + concat_frames(events.skip(k)),
    decreases events.len(),
{
    if k == 0 {
        assert(events.take(0) =~= Seq::<FrameEvent<S>>::empty());
        assert(events.skip(0) =~= events);
        assert(Seq::<S>::empty() + concat_frames(events) =~= concat_frames(events));
    } else {
        let rest = events.drop_first();
        lemma_concat_take_prefix(rest, k - 1);
        assert(events.take(k).drop_first() =~= rest.take(k - 1));
        assert(events.take(k)[0] == events[0]);
        assert(events.skip(k) =~= rest.skip(k - 1));
        assert(concat_frames(events.take(k)) == events[0].frame + concat_frames(rest.take(k - 1)));
        assert(events[0].frame + (concat_frames(rest.take(k - 1)) + concat_frames(rest.skip(k - 1)))
            =~= (events[0].frame + concat_frames(rest.take(k - 1))) + concat_frames(rest.skip(k - 1)));
    }
}

} // verus!
