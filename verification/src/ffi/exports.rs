//! Decisions behind the C interface.
//!
//! The host application drives the core through a small C interface:
//! initialise, set model paths, register a caption callback, start and
//! stop the pipeline, pick an engine. The exported functions themselves
//! (pointer handling, global slots, the callback call) live outside the
//! library; this module keeps the settings and decides what each call
//! does and which status code it returns.

use crate::text::contains_nul;
use vstd::prelude::*;
use vstd::string::StringSliceAdditionalSpecFns;

verus! {

/// Per-chunk timing metrics passed to the host with each caption.
#[derive(Clone, Copy)]
pub struct TranslationMetrics {
    /// Length of the audio chunk in milliseconds.
    pub audio_duration_ms: u32,
    /// Time spent in speech recognition in milliseconds.
    pub asr_inference_ms: u32,
    /// Time from chunk ready to callback in milliseconds.
    pub rust_total_ms: u32,
}

impl Default for TranslationMetrics {
    fn default() -> (m: TranslationMetrics)
        ensures
            m.audio_duration_ms == 0,
            m.asr_inference_ms == 0,
            m.rust_total_ms == 0,
    {
        TranslationMetrics { audio_duration_ms: 0, asr_inference_ms: 0, rust_total_ms: 0 }
    }
}

/// Status code of a successful call.
pub const STATUS_OK: i32 = 0;

/// Status code of a failed call.
pub const STATUS_ERROR: i32 = -1;

/// The detector model path used until the host sets one.
pub open spec fn default_model_path() -> Seq<char> {
    "assets/silero_vad.onnx"@
}

/// What a start request launches.
pub struct StartRequest {
    pub target_pid: u32,
    pub include_tree: bool,
    pub vad_model_path: String,
    pub asr_model_path: String,
}

/// The answer to a start request.
pub enum StartDecision {
    /// A pipeline is already running: return this status at once without
    /// launching anything.
    Ignore(i32),
    /// Launch this pipeline.
    Launch(StartRequest),
}

/// The core's settings and the state of its pipeline slot.
pub struct CoreState {
    model_path: String,
    asr_model_path: String,
    callback_registered: bool,
    pipeline_running: bool,
}

impl CoreState {
    /// The detector model path.
    pub closed spec fn model_path(&self) -> Seq<char> {
        self.model_path@
    }

    /// The recogniser model path (empty when none is set).
    pub closed spec fn asr_model_path(&self) -> Seq<char> {
        self.asr_model_path@
    }

    /// Whether a caption callback is registered.
    pub closed spec fn has_callback(&self) -> bool {
        self.callback_registered
    }

    /// Whether a pipeline is running.
    pub closed spec fn running(&self) -> bool {
        self.pipeline_running
    }

    /// The initial state: default detector model, no recogniser model, no
    /// callback, no pipeline.
    pub fn new() -> (st: Self)
        ensures
            st.model_path() == default_model_path(),
            st.asr_model_path() == Seq::<char>::empty(),
            !st.has_callback(),
            !st.running(),
    {
        CoreState {
            model_path: String::from_str("assets/silero_vad.onnx"),
            asr_model_path: String::new(),
            callback_registered: false,
            pipeline_running: false,
        }
    }

    /// The detector model path slot.
    pub fn model_path_slot(&self) -> (p: &String)
        ensures
            p@ == self.model_path(),
    {
        &self.model_path
    }

    /// The recogniser model path slot.
    pub fn asr_model_path_slot(&self) -> (p: &String)
        ensures
            p@ == self.asr_model_path(),
    {
        &self.asr_model_path
    }

    /// Sets the detector model path; `None` (a null pointer) changes nothing.
    pub fn set_model_path(&mut self, path: Option<String>)
        ensures
            final(self).model_path() == (match path {
                Some(p) => p@,
                None => old(self).model_path(),
            }),
            final(self).asr_model_path() == old(self).asr_model_path(),
            final(self).has_callback() == old(self).has_callback(),
            final(self).running() == old(self).running(),
    {
        if let Some(p) = path {
            self.model_path = p;
        }
    }

    /// Sets the recogniser model path; `None` (a null pointer) changes
    /// nothing.
    pub fn set_asr_model_path(&mut self, path: Option<String>)
        ensures
            final(self).asr_model_path() == (match path {
                Some(p) => p@,
                None => old(self).asr_model_path(),
            }),
            final(self).model_path() == old(self).model_path(),
            final(self).has_callback() == old(self).has_callback(),
            final(self).running() == old(self).running(),
    {
        if let Some(p) = path {
            self.asr_model_path = p;
        }
    }

    /// Records that a caption callback is registered.
    pub fn register_callback(&mut self)
        ensures
            final(self).has_callback(),
            final(self).model_path() == old(self).model_path(),
            final(self).asr_model_path() == old(self).asr_model_path(),
            final(self).running() == old(self).running(),
    {
        self.callback_registered = true;
    }

    /// Whether a caption can be delivered: a callback is registered and the
    /// text fits in a C string (no NUL byte).
    pub fn should_emit(&self, text: &str) -> (r: bool)
        ensures
            r == (self.has_callback() && !text.spec_bytes().contains(0u8)),
    {
        self.callback_registered && !contains_nul(text)
    }

    /// Decides a start request: while a pipeline runs the request is
    /// ignored and answered with the OK status, leaving the running
    /// pipeline untouched; otherwise the pipeline to launch, capturing the
    /// whole process tree with the current model paths.
    pub fn start_request(&self, target_pid: u32) -> (r: StartDecision)
        ensures
            self.running() ==> r == StartDecision::Ignore(STATUS_OK),
            !self.running() ==> (r matches StartDecision::Launch(req) && req.target_pid
                == target_pid && req.include_tree && req.vad_model_path@ == self.model_path()
                && req.asr_model_path@ == self.asr_model_path()),
    {
        if self.pipeline_running {
            return StartDecision::Ignore(STATUS_OK);
        }
        StartDecision::Launch(
            StartRequest {
                target_pid,
                include_tree: true,
                vad_model_path: self.model_path.clone(),
                asr_model_path: self.asr_model_path.clone(),
            },
        )
    }

    /// Records the outcome of a launch and returns the start status: OK
    /// and running when it launched, an error otherwise.
    pub fn finish_start(&mut self, launched: bool) -> (status: i32)
        requires
            !old(self).running(),
        ensures
            final(self).running() == launched,
            status == (if launched { STATUS_OK } else { STATUS_ERROR }),
            final(self).model_path() == old(self).model_path(),
            final(self).asr_model_path() == old(self).asr_model_path(),
            final(self).has_callback() == old(self).has_callback(),
    {
        self.pipeline_running = launched;
        if launched {
            STATUS_OK
        } else {
            STATUS_ERROR
        }
    }

    /// Takes the running pipeline out of its slot for stopping; returns
    /// whether there was one. The slot is empty afterwards whatever the
    /// stop's outcome.
    pub fn take_pipeline(&mut self) -> (had: bool)
        ensures
            had == old(self).running(),
            !final(self).running(),
            final(self).model_path() == old(self).model_path(),
            final(self).asr_model_path() == old(self).asr_model_path(),
            final(self).has_callback() == old(self).has_callback(),
    {
        let had = self.pipeline_running;
        self.pipeline_running = false;
        had
    }

    /// Drops the caption callback (on teardown).
    pub fn clear_callback(&mut self)
        ensures
            !final(self).has_callback(),
            final(self).model_path() == old(self).model_path(),
            final(self).asr_model_path() == old(self).asr_model_path(),
            final(self).running() == old(self).running(),
    {
        self.callback_registered = false;
    }
}

/// The stop status: an error only when a running pipeline failed to stop.
pub fn stop_status(had_pipeline: bool, stopped_cleanly: bool) -> (status: i32)
    ensures
        status == (if had_pipeline && !stopped_cleanly { STATUS_ERROR } else { STATUS_OK }),
{
    if had_pipeline && !stopped_cleanly {
        STATUS_ERROR
    } else {
        STATUS_OK
    }
}

/// Whether `name` is one of the engines the core knows.
pub open spec fn known_engine(name: Seq<char>) -> bool {
    name == "gemini"@ || name == "sensevoice"@
}

/// The status of an engine selection: a missing name (null pointer) or an
/// unknown one is an error.
pub fn engine_status(name: Option<&str>) -> (status: i32)
    ensures
        status == (match name {
            Some(n) => if known_engine(n@) { STATUS_OK } else { STATUS_ERROR },
            None => STATUS_ERROR,
        }),
{
    match name {
        None => STATUS_ERROR,
        Some(n) => {
            if str_equals(n, "gemini") || str_equals(n, "sensevoice") {
                STATUS_OK
            } else {
                STATUS_ERROR
            }
        },
    }
}

/// Whether two strings hold the same characters.
fn str_equals(a: &str, b: &str) -> (r: bool)
    ensures
        r == (a@ == b@),
{
    let n = a.unicode_len();
    if n != b.unicode_len() {
        return false;
    }
    let mut i: usize = 0;
    while i < n
        invariant
            n == a@.len(),
            n == b@.len(),
            i <= n,
            forall|k: int| 0 <= k < i ==> a@[k] == b@[k],
        decreases n - i,
    {
        if a.get_char(i) != b.get_char(i) {
            return false;
        }
        i = i + 1;
    }
    assert(a@ == b@);
    true
}

} // verus!
