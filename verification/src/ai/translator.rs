//! The interface every speech engine implements.
//!
//! The pipeline hands an engine a chunk of audio and gets back recognised
//! and translated text; engines can be swapped without touching the rest
//! of the pipeline.

use vstd::prelude::*;

verus! {

/// A request to recognise and translate an audio chunk.
pub struct TranslationRequest<S> {
    /// Samples of the chunk (16 kHz, mono).
    pub audio: Vec<S>,
    /// Source language hint (ISO 639-1); `None` for auto-detection.
    pub source_lang: Option<String>,
    /// Target language (ISO 639-1).
    pub target_lang: String,
    /// Whether the chunk is provisional rather than final.
    pub is_provisional: bool,
}

/// The result of a translation.
pub struct TranslationResult {
    /// Detected source language (ISO 639-1).
    pub detected_lang: Option<String>,
    /// Recognised text in the source language.
    pub source_text: String,
    /// Translated text in the target language.
    pub translated_text: String,
    /// Processing latency in milliseconds.
    pub latency_ms: u64,
    /// Whether the result belongs to a provisional chunk.
    pub is_provisional: bool,
}

/// The marker that prefixes a provisional result's text.
pub open spec fn provisional_marker() -> Seq<char> {
    "[~] "@
}

/// The marker that prefixes a final result's text.
pub open spec fn final_marker() -> Seq<char> {
    "[\u{2713}] "@
}

impl TranslationResult {
    /// The result as shown to the user: a marker telling provisional from
    /// final results, then the translated text.
    pub fn display_text(&self) -> (s: String)
        ensures
            s@ == (if self.is_provisional {
                provisional_marker()
            } else {
                final_marker()
            }) + self.translated_text@,
    {
        let mut s = if self.is_provisional {
            String::from_str("[~] ")
        } else {
            String::from_str("[\u{2713}] ")
        };
        s.append(self.translated_text.as_str());
        s
    }
}

/// Why an engine call failed.
#[derive(Debug, Clone, Copy, PartialEq, Eq, Structural)]
pub enum EngineError {
    /// The model path cannot be passed to the engine (it holds a NUL).
    InvalidModelPath,
    /// The engine could not load its model.
    ModelLoadFailed,
    /// Recognition failed with the engine's status code.
    TranscribeFailed(i32),
}

/// Operations every speech engine offers.
pub trait TranslationEngine {
    /// Human-readable name of the engine.
    fn name(&self) -> &str;

    /// Prepares the engine (connects to a server, loads a model, ...).
    fn initialize(&mut self) -> Result<(), EngineError>;

    /// Recognises and translates one audio chunk.
    fn translate<S: Copy>(&self, request: TranslationRequest<S>) -> Result<TranslationResult, EngineError>;

    /// Shuts the engine down (closes connections, unloads the model).
    fn shutdown(&mut self) -> Result<(), EngineError>;

    /// Whether the engine accepts requests.
    fn is_ready(&self) -> bool;
}

} // verus!
