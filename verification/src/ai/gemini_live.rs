//! Cloud engine for a live speech-translation service.
//!
//! The engine keeps its configuration and connection state; the network
//! session is not implemented yet, so a request is answered with a fixed
//! placeholder text.

use crate::ai::translator::{EngineError, TranslationEngine, TranslationRequest, TranslationResult};
use crate::clock::MonotonicClock;
use crate::vad::state_machine::NANOS_PER_MS;
use vstd::prelude::*;

verus! {

/// Configuration for the live translation client.
pub struct GeminiConfig {
    /// API key for authentication.
    pub api_key: String,
    /// Model identifier.
    pub model: String,
    /// System prompt instructing the model to translate.
    pub system_prompt: String,
    /// Target language for translation.
    pub target_lang: String,
}

/// The default model identifier.
pub open spec fn default_model() -> Seq<char> {
    "gemini-2.5-flash"@
}

/// The default system prompt.
pub open spec fn default_system_prompt() -> Seq<char> {
    "You are a real-time voice translator for gamers. Translate the spoken audio to the target language. Output ONLY the translated text, no explanations. Preserve gaming terminology and proper nouns."@
}

/// The default target language.
pub open spec fn default_target_lang() -> Seq<char> {
    "zh"@
}

/// The text returned until the network session exists.
pub open spec fn placeholder_text() -> Seq<char> {
    "[Gemini placeholder]"@
}

/// The engine's display name.
pub open spec fn engine_name() -> Seq<char> {
    "Gemini 2.5 Flash Native Audio"@
}

impl Default for GeminiConfig {
    fn default() -> (c: GeminiConfig)
        ensures
            c.api_key@ == Seq::<char>::empty(),
            c.model@ == default_model(),
            c.system_prompt@ == default_system_prompt(),
            c.target_lang@ == default_target_lang(),
    {
        GeminiConfig {
            api_key: String::new(),
            model: String::from_str("gemini-2.5-flash"),
            system_prompt: String::from_str(
                "You are a real-time voice translator for gamers. Translate the spoken audio to the target language. Output ONLY the translated text, no explanations. Preserve gaming terminology and proper nouns.",
            ),
            target_lang: String::from_str("zh"),
        }
    }
}

/// The live translation engine.
pub struct GeminiLiveEngine {
    config: GeminiConfig,
    is_connected: bool,
}

impl GeminiLiveEngine {
    /// The engine's configuration.
    pub closed spec fn config(&self) -> GeminiConfig {
        self.config
    }

    /// Whether the engine is connected.
    pub closed spec fn connected(&self) -> bool {
        self.is_connected
    }

    /// Creates a disconnected engine with the given configuration.
    pub fn new(config: GeminiConfig) -> (e: Self)
        ensures
            e.config() == config,
            !e.connected(),
    {
        GeminiLiveEngine { config, is_connected: false }
    }

    /// Answers `request` as [`TranslationEngine::translate`] does, with the
    /// measured processing latency given as `latency_ms`.
    pub fn translate_with_latency<S: Copy>(&self, request: TranslationRequest<S>, latency_ms: u64) -> (r: TranslationResult)
        ensures
            r.detected_lang is None,
            r.source_text@ == Seq::<char>::empty(),
            r.translated_text@ == placeholder_text(),
            r.latency_ms == latency_ms,
            r.is_provisional == request.is_provisional,
    {
        TranslationResult {
            detected_lang: None,
            source_text: String::new(),
            translated_text: String::from_str("[Gemini placeholder]"),
            latency_ms,
            is_provisional: request.is_provisional,
        }
    }
}

impl TranslationEngine for GeminiLiveEngine {
    fn name(&self) -> (n: &str)
        ensures
            n@ == engine_name(),
    {
        "Gemini 2.5 Flash Native Audio"
    }

    fn initialize(&mut self) -> (r: Result<(), EngineError>)
        ensures
            r is Ok,
            final(self).connected(),
            final(self).config() == old(self).config(),
    {
        self.is_connected = true;
        Ok(())
    }

    fn translate<S: Copy>(&self, request: TranslationRequest<S>) -> (r: Result<TranslationResult, EngineError>)
        ensures
            r matches Ok(res) && res.detected_lang is None && res.source_text@ == Seq::<char>::empty()
                && res.translated_text@ == placeholder_text() && res.is_provisional
                == request.is_provisional,
    {
        let clock = MonotonicClock::start();
        let latency_ms = clock.now_ns() / NANOS_PER_MS;
        Ok(self.translate_with_latency(request, latency_ms))
    }

    fn shutdown(&mut self) -> (r: Result<(), EngineError>)
        ensures
            r is Ok,
            !final(self).connected(),
            final(self).config() == old(self).config(),
    {
        self.is_connected = false;
        Ok(())
    }

    fn is_ready(&self) -> (b: bool)
        ensures
            b == self.connected(),
    {
        self.is_connected
    }
}

} // verus!
