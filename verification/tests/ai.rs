use aura_core::ai::gemini_live::{GeminiConfig, GeminiLiveEngine};
use aura_core::ai::sensevoice::{check_model_path, decode_transcription, MAX_TEXT_LEN};
use aura_core::ai::translator::{EngineError, TranslationEngine, TranslationRequest, TranslationResult};

fn request(is_provisional: bool) -> TranslationRequest<f32> {
    TranslationRequest {
        audio: vec![0.0; 1600],
        source_lang: None,
        target_lang: "zh".to_string(),
        is_provisional,
    }
}

#[test]
fn gemini_default_config() {
    let c = GeminiConfig::default();
    assert_eq!(c.api_key, "");
    assert_eq!(c.model, "gemini-2.5-flash");
    assert_eq!(c.target_lang, "zh");
    assert!(c.system_prompt.starts_with("You are a real-time voice translator for gamers."));
    assert!(c.system_prompt.ends_with("Preserve gaming terminology and proper nouns."));
}

#[test]
fn gemini_lifecycle() {
    let mut e = GeminiLiveEngine::new(GeminiConfig::default());
    assert_eq!(e.name(), "Gemini 2.5 Flash Native Audio");
    assert!(!e.is_ready());
    assert!(e.initialize().is_ok());
    assert!(e.is_ready());
    let r = e.translate(request(true)).expect("result");
    assert_eq!(r.translated_text, "[Gemini placeholder]");
    assert_eq!(r.source_text, "");
    assert!(r.detected_lang.is_none());
    assert!(r.is_provisional);
    let r = e.translate(request(false)).expect("result");
    assert!(!r.is_provisional);
    assert!(e.shutdown().is_ok());
    assert!(!e.is_ready());
}

#[test]
fn gemini_reports_given_latency() {
    let e = GeminiLiveEngine::new(GeminiConfig::default());
    let r = e.translate_with_latency(request(false), 123);
    assert_eq!(r.latency_ms, 123);
}

#[test]
fn result_display_marks_provisional_and_final() {
    let mut r = TranslationResult {
        detected_lang: Some("en".to_string()),
        source_text: "hello".to_string(),
        translated_text: "你好".to_string(),
        latency_ms: 5,
        is_provisional: true,
    };
    assert_eq!(r.display_text(), "[~] 你好");
    r.is_provisional = false;
    assert_eq!(r.display_text(), "[\u{2713}] 你好");
}

#[test]
fn transcription_status_and_padding() {
    let mut buf = vec![0u8; MAX_TEXT_LEN];
    buf[..5].copy_from_slice(b"hello");
    assert_eq!(decode_transcription(0, &buf), Ok(b"hello".to_vec()));
    assert_eq!(decode_transcription(0, &vec![0u8; 16]), Ok(vec![]));
    assert_eq!(decode_transcription(-2, &buf), Err(EngineError::TranscribeFailed(-2)));
    assert_eq!(decode_transcription(0, b"a\0b\0\0"), Ok(b"a\0b".to_vec()));
}

#[test]
fn model_path_must_not_hold_nul() {
    assert_eq!(check_model_path("models/sense-voice.gguf"), Ok(()));
    assert_eq!(check_model_path("bad\0path"), Err(EngineError::InvalidModelPath));
}
