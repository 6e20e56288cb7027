//! Frame bookkeeping of the Silero voice-activity detector.
//!
//! The detector model takes 576 samples per call at 16 kHz: the last 64
//! samples of the previous frame as context followed by 512 new samples,
//! plus its recurrent state (2 x 1 x 128 values). It returns a speech
//! probability and the next recurrent state. This module keeps the context
//! and the recurrent state between calls, assembles the model input, and
//! applies the two-threshold hysteresis that turns probabilities into
//! speech decisions. Running the model happens outside the library; the
//! probability comparisons are handed in as booleans.

use crate::samples::{append_samples, copy_all, copy_range, filled};
use vstd::prelude::*;

verus! {

/// Context samples carried over from the previous frame.
pub const CONTEXT_SAMPLES: usize = 64;

/// New audio samples consumed per frame.
pub const AUDIO_SAMPLES: usize = 512;

/// Samples passed to the model per frame (context plus new audio).
pub const FRAME_SAMPLES: usize = 576;

/// Sampling rate the detector expects (Hz).
pub const SAMPLE_RATE: usize = 16000;

/// Number of values in the recurrent state (2 x 1 x 128).
pub const STATE_LEN: usize = 256;

/// The speech decision for a frame given the previous decision and how the
/// frame's probability compares with the two thresholds: while speaking,
/// speech continues as long as the probability exceeds the OFF threshold;
/// otherwise speech starts only above the ON threshold.
pub open spec fn hysteresis(was_speaking: bool, above_on: bool, above_off: bool) -> bool {
    if was_speaking {
        above_off
    } else {
        above_on
    }
}

/// What the detector keeps between frames, as values.
pub struct DetectorView<S> {
    /// The recurrent state handed to the model with the next frame.
    pub rnn_state: Seq<S>,
    /// The samples put in front of the next frame.
    pub context: Seq<S>,
    /// Whether the last frame was speech.
    pub speaking: bool,
}

/// A fresh detector: recurrent state and context all `silence`, not
/// speaking.
pub open spec fn fresh_detector<S>(silence: S) -> DetectorView<S> {
    DetectorView {
        rnn_state: Seq::new(STATE_LEN as nat, |i: int| silence),
        context: Seq::new(CONTEXT_SAMPLES as nat, |i: int| silence),
        speaking: false,
    }
}

/// The model input for `frame`: the context followed by the frame.
pub open spec fn input_for<S>(v: DetectorView<S>, frame: Seq<S>) -> Seq<S> {
    v.context + frame
}

/// The detector after the model answered for `frame` with `next_state`:
/// the new recurrent state, the last 64 samples of the frame as context,
/// and the speech decision under hysteresis.
pub open spec fn committed<S>(
    v: DetectorView<S>,
    frame: Seq<S>,
    next_state: Seq<S>,
    above_on: bool,
    above_off: bool,
) -> DetectorView<S> {
    DetectorView {
        rnn_state: next_state,
        context: frame.subrange((AUDIO_SAMPLES - CONTEXT_SAMPLES) as int, AUDIO_SAMPLES as int),
        speaking: hysteresis(v.speaking, above_on, above_off),
    }
}

/// The detector state kept between frames.
pub struct SileroState<S> {
    rnn_state: Vec<S>,
    context: Vec<S>,
    is_speaking: bool,
}

impl<S: Copy> SileroState<S> {
    /// The recurrent state values.
    pub closed spec fn rnn_state(&self) -> Seq<S> {
        self.rnn_state@
    }

    /// The context samples.
    pub closed spec fn context(&self) -> Seq<S> {
        self.context@
    }

    /// The hysteresis state: whether the last frame was speech.
    pub closed spec fn speaking(&self) -> bool {
        self.is_speaking
    }

    /// The state as values.
    pub open spec fn detector_view(&self) -> DetectorView<S> {
        DetectorView { rnn_state: self.rnn_state(), context: self.context(), speaking: self.speaking() }
    }

    /// Well-formedness: state and context have their fixed sizes.
    pub open spec fn wf(&self) -> bool {
        self.rnn_state().len() == STATE_LEN && self.context().len() == CONTEXT_SAMPLES
    }

    /// A fresh detector state: recurrent state and context all `silence`,
    /// not speaking.
    pub fn new(silence: S) -> (st: Self)
        ensures
            st.wf(),
            st.detector_view() == fresh_detector(silence),
            st.rnn_state() == Seq::new(STATE_LEN as nat, |i: int| silence),
            st.context() == Seq::new(CONTEXT_SAMPLES as nat, |i: int| silence),
            !st.speaking(),
    {
        SileroState {
            rnn_state: filled(silence, STATE_LEN),
            context: filled(silence, CONTEXT_SAMPLES),
            is_speaking: false,
        }
    }

    /// The model input for `frame`: the context followed by the frame.
    pub fn model_input(&self, frame: &[S]) -> (input: Vec<S>)
        requires
            self.wf(),
            frame@.len() == AUDIO_SAMPLES,
        ensures
            input@ == self.context() + frame@,
            input@ == input_for(self.detector_view(), frame@),
            input@.len() == FRAME_SAMPLES,
    {
        let mut input: Vec<S> = Vec::with_capacity(FRAME_SAMPLES);
        append_samples(&mut input, self.context.as_slice());
        append_samples(&mut input, frame);
        input
    }

    /// A copy of the recurrent state, as handed to the model.
    pub fn rnn_state_values(&self) -> (v: Vec<S>)
        ensures
            v@ == self.rnn_state(),
    {
        copy_all(self.rnn_state.as_slice())
    }

    /// Takes in the model's answer for `frame`: stores the next recurrent
    /// state, keeps the last 64 samples of `frame` as the next context, and
    /// returns the speech decision under hysteresis.
    pub fn commit(&mut self, frame: &[S], next_state: &[S], above_on: bool, above_off: bool) -> (is_speech: bool)
        requires
            old(self).wf(),
            frame@.len() == AUDIO_SAMPLES,
            next_state@.len() == STATE_LEN,
        ensures
            final(self).wf(),
            final(self).detector_view() == committed(
                old(self).detector_view(),
                frame@,
                next_state@,
                above_on,
                above_off,
            ),
            final(self).rnn_state() == next_state@,
            final(self).context() == frame@.subrange(
                (AUDIO_SAMPLES - CONTEXT_SAMPLES) as int,
                AUDIO_SAMPLES as int,
            ),
            is_speech == hysteresis(old(self).speaking(), above_on, above_off),
            final(self).speaking() == is_speech,
    {
        self.rnn_state = copy_all(next_state);
        self.context = copy_range(frame, AUDIO_SAMPLES - CONTEXT_SAMPLES, AUDIO_SAMPLES);
        let is_speech = if self.is_speaking {
            above_off
        } else {
            above_on
        };
        self.is_speaking = is_speech;
        is_speech
    }

    /// Clears the recurrent state and context to `silence` and the
    /// hysteresis to not speaking.
    pub fn reset_state(&mut self, silence: S)
        ensures
            final(self).wf(),
            final(self).detector_view() == fresh_detector(silence),
            final(self).rnn_state() == Seq::new(STATE_LEN as nat, |i: int| silence),
            final(self).context() == Seq::new(CONTEXT_SAMPLES as nat, |i: int| silence),
            !final(self).speaking(),
    {
        self.rnn_state = filled(silence, STATE_LEN);
        self.context = filled(silence, CONTEXT_SAMPLES);
        self.is_speaking = false;
    }
}

/// With the ON threshold above the OFF threshold (so a probability above ON
/// is also above OFF), a frame above ON is speech whatever came before, and
/// a frame not above OFF is silence whatever came before.
pub proof fn law_hysteresis_thresholds(was_speaking: bool, above_on: bool, above_off: bool)
    requires
        above_on ==> above_off,
    ensures
        above_on ==> hysteresis(was_speaking, above_on, above_off),
        !above_off ==> !hysteresis(was_speaking, above_on, above_off),
{
}

/// Across calls: once the model has answered for `frame`, the next call
/// hands it the last 64 samples of `frame` followed by the next frame (576
/// samples) and the recurrent state it returned; the speech decision goes
/// by hysteresis from the previous one.
pub proof fn law_next_call_continues_frame<S>(
    v: DetectorView<S>,
    frame: Seq<S>,
    next_state: Seq<S>,
    above_on: bool,
    above_off: bool,
    next_frame: Seq<S>,
)
    requires
        frame.len() == AUDIO_SAMPLES,
        next_frame.len() == AUDIO_SAMPLES,
    ensures
        ({
            let w = committed(v, frame, next_state, above_on, above_off);
            &&& input_for(w, next_frame) == frame.subrange(448, 512) + next_frame
            &&& input_for(w, next_frame).len() == FRAME_SAMPLES
            &&& w.rnn_state == next_state
            &&& w.speaking == hysteresis(v.speaking, above_on, above_off)
        }),
{
}

} // verus!
