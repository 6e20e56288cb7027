use aura_core::ffi::exports::{
    engine_status, stop_status, CoreState, StartDecision, TranslationMetrics,
};
use aura_core::ffi::pipeline::{
    chunk_duration_ms, chunk_step, ends_utterance, final_caption, flush_caption, flush_step,
    plan_pipeline, provisional_caption, pull_amount, self_test_phrases, typing_updates,
    CaptureDumper, ChunkStep, PipelinePlan, RecognitionOutcome,
};
use aura_core::vad::state_machine::ChunkType;

#[test]
fn metrics_default_to_zero() {
    let m = TranslationMetrics::default();
    assert_eq!((m.audio_duration_ms, m.asr_inference_ms, m.rust_total_ms), (0, 0, 0));
}

#[test]
fn settings_and_slots() {
    let mut st = CoreState::new();
    assert_eq!(st.model_path_slot(), "assets/silero_vad.onnx");
    assert_eq!(st.asr_model_path_slot(), "");
    st.set_model_path(None);
    assert_eq!(st.model_path_slot(), "assets/silero_vad.onnx");
    st.set_model_path(Some("m/vad.onnx".to_string()));
    st.set_asr_model_path(Some("m/asr.gguf".to_string()));
    st.set_asr_model_path(None);
    assert_eq!(st.model_path_slot(), "m/vad.onnx");
    assert_eq!(st.asr_model_path_slot(), "m/asr.gguf");
}

#[test]
fn start_and_stop_decisions() {
    let mut st = CoreState::new();
    let req = match st.start_request(1234) {
        StartDecision::Launch(req) => req,
        StartDecision::Ignore(_) => panic!("expected a launch"),
    };
    assert_eq!(req.target_pid, 1234);
    assert!(req.include_tree);
    assert_eq!(req.vad_model_path, "assets/silero_vad.onnx");
    assert_eq!(req.asr_model_path, "");
    assert_eq!(st.finish_start(false), -1);
    assert!(matches!(st.start_request(1), StartDecision::Launch(_)));
    assert_eq!(st.finish_start(true), 0);
    assert!(matches!(st.start_request(1), StartDecision::Ignore(0)));
    assert!(st.take_pipeline());
    assert!(!st.take_pipeline());
    assert_eq!(stop_status(true, false), -1);
    assert_eq!(stop_status(true, true), 0);
    assert_eq!(stop_status(false, false), 0);
}

#[test]
fn caption_delivery_needs_callback_and_c_text() {
    let mut st = CoreState::new();
    assert!(!st.should_emit("hello"));
    st.register_callback();
    assert!(st.should_emit("hello"));
    assert!(!st.should_emit("he\0llo"));
    st.clear_callback();
    assert!(!st.should_emit("hello"));
}

#[test]
fn engine_selection() {
    assert_eq!(engine_status(Some("gemini")), 0);
    assert_eq!(engine_status(Some("sensevoice")), 0);
    assert_eq!(engine_status(Some("whisper")), -1);
    assert_eq!(engine_status(Some("")), -1);
    assert_eq!(engine_status(None), -1);
}

#[test]
fn captions() {
    assert_eq!(chunk_duration_ms(16000), 1000);
    assert_eq!(chunk_duration_ms(19456), 1216);
    assert_eq!(chunk_duration_ms(15), 0);
    assert_eq!(provisional_caption(19456), "[~] 1216ms speech...");
    assert_eq!(provisional_caption(0), "[~] 0ms speech...");
    assert_eq!(final_caption(82944, RecognitionOutcome::Text(String::new())), "[\u{2713}] 5184ms (no speech)");
    assert_eq!(final_caption(82944, RecognitionOutcome::Text("hi there".to_string())), "hi there");
    assert_eq!(final_caption(16000, RecognitionOutcome::Failed), "[\u{2713}] 1000ms (ASR failed)");
    assert_eq!(final_caption(19456, RecognitionOutcome::NoRecogniser), "[\u{2713}] 1216ms sentence");
    assert_eq!(flush_caption(8000), "[\u{2713}] 500ms (flush)");
    assert!(!ends_utterance(ChunkType::Provisional));
    assert!(ends_utterance(ChunkType::Final));
    assert!(ends_utterance(ChunkType::HardCut));
}

#[test]
fn pipeline_modes() {
    assert!(matches!(plan_pipeline(0, true, "x"), PipelinePlan::SelfTest));
    match plan_pipeline(1234, false, "") {
        PipelinePlan::Live { capture, load_recogniser } => {
            assert_eq!(capture.target_pid, 1234);
            assert!(!capture.include_process_tree);
            assert!(!load_recogniser);
        }
        PipelinePlan::SelfTest => panic!("expected live mode"),
    }
    match plan_pipeline(7, true, "model.gguf") {
        PipelinePlan::Live { load_recogniser, .. } => assert!(load_recogniser),
        PipelinePlan::SelfTest => panic!("expected live mode"),
    }
}

#[test]
fn self_test_typing() {
    assert_eq!(self_test_phrases().len(), 5);
    let ups = typing_updates("Hello");
    let got: Vec<(String, bool, i32)> =
        ups.into_iter().map(|u| (u.text, u.is_provisional, u.latency_ms)).collect();
    assert_eq!(
        got,
        vec![
            ("He".to_string(), true, 20),
            ("Hell".to_string(), true, 40),
            ("Hello".to_string(), true, 50),
            ("Hello".to_string(), false, 100),
        ]
    );
    let ups = typing_updates("");
    assert_eq!(ups.len(), 1);
    assert_eq!(ups[0].latency_ms, 50);
    let ups = typing_updates("äöüß");
    assert_eq!(ups[0].text, "äö");
    assert_eq!(ups[1].text, "äöüß");
}

#[test]
fn dumper_keeps_first_samples_and_fires_once() {
    let mut d: CaptureDumper<u32> = CaptureDumper::new(10);
    assert!(!d.feed(&[1, 2, 3, 4]));
    assert!(d.feed(&[5, 6, 7, 8, 9, 10, 11, 12]));
    assert_eq!(d.samples(), &[1, 2, 3, 4, 5, 6, 7, 8, 9, 10]);
    assert!(!d.feed(&[13]));
    assert_eq!(d.samples().len(), 10);
}

#[test]
fn worker_pulls_once_a_frame_is_buffered() {
    assert_eq!(pull_amount(0), None);
    assert_eq!(pull_amount(511), None);
    assert_eq!(pull_amount(512), Some(512));
    assert_eq!(pull_amount(3000), Some(3000));
}

#[test]
fn self_test_phrase_texts() {
    let p = self_test_phrases();
    assert_eq!(p[0], "Hello, this is a self-test of the Aura real-time translation system.");
    assert_eq!(p[4], "Select a target process from the dropdown menu and click Start Translation.");
}

#[test]
fn provisional_chunks_are_shown_and_others_recognised() {
    match chunk_step(ChunkType::Provisional, 19456) {
        ChunkStep::Show(t) => assert_eq!(t, "[~] 1216ms speech..."),
        ChunkStep::ResetAndRecognise => panic!("a provisional chunk is only shown"),
    }
    assert!(matches!(chunk_step(ChunkType::Final, 16000), ChunkStep::ResetAndRecognise));
    assert!(matches!(chunk_step(ChunkType::HardCut, 16000), ChunkStep::ResetAndRecognise));
}

#[test]
fn flush_only_when_samples_are_pending() {
    assert_eq!(flush_step(0), None);
    assert_eq!(flush_step(8000), Some("[\u{2713}] 500ms (flush)".to_string()));
    assert_eq!(flush_step(511), Some("[\u{2713}] 31ms (flush)".to_string()));
}
