use aura_core::vad::silero::{SileroState, AUDIO_SAMPLES, CONTEXT_SAMPLES, FRAME_SAMPLES, STATE_LEN};

#[test]
fn sizes() {
    assert_eq!(FRAME_SAMPLES, AUDIO_SAMPLES + CONTEXT_SAMPLES);
    assert_eq!(FRAME_SAMPLES, 576);
    assert_eq!(STATE_LEN, 256);
}

#[test]
fn model_input_is_context_then_frame() {
    let mut st: SileroState<f32> = SileroState::new(0.0);
    let frame: Vec<f32> = (0..512).map(|i| i as f32).collect();
    let input = st.model_input(&frame);
    assert_eq!(input.len(), 576);
    assert!(input[..64].iter().all(|v| *v == 0.0));
    assert_eq!(&input[64..], &frame[..]);
    let next_state = vec![0.5f32; 256];
    st.commit(&frame, &next_state, false, false);
    assert_eq!(st.rnn_state_values(), next_state);
    let input2 = st.model_input(&frame);
    assert_eq!(&input2[..64], &frame[448..]);
}

#[test]
fn hysteresis_needs_on_to_start_and_off_to_continue() {
    let mut st: SileroState<f32> = SileroState::new(0.0);
    let frame = vec![0.0f32; 512];
    let state = vec![0.0f32; 256];
    // above OFF but not ON: not speaking yet
    assert!(!st.commit(&frame, &state, false, true));
    // above ON: speech starts
    assert!(st.commit(&frame, &state, true, true));
    // above OFF only: speech continues
    assert!(st.commit(&frame, &state, false, true));
    // below OFF: speech ends
    assert!(!st.commit(&frame, &state, false, false));
    // reset clears the hysteresis
    assert!(st.commit(&frame, &state, true, true));
    st.reset_state(0.0);
    assert!(!st.commit(&frame, &state, false, true));
}

#[test]
fn reset_state_matches_a_fresh_detector() {
    let mut used: SileroState<f32> = SileroState::new(0.0);
    let frame: Vec<f32> = (0..512).map(|i| i as f32 * 0.001).collect();
    used.commit(&frame, &vec![0.25f32; 256], true, true);
    used.commit(&frame, &vec![0.75f32; 256], true, true);
    used.reset_state(0.0);
    let fresh: SileroState<f32> = SileroState::new(0.0);
    assert_eq!(used.rnn_state_values(), fresh.rnn_state_values());
    assert_eq!(used.model_input(&frame), fresh.model_input(&frame));
    used.reset_state(0.0);
    assert_eq!(used.model_input(&frame), fresh.model_input(&frame));
    let mut a = used;
    let mut b = fresh;
    assert_eq!(a.commit(&frame, &vec![0.1f32; 256], false, true), b.commit(&frame, &vec![0.1f32; 256], false, true));
}
