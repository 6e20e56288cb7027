//! Aura core: the decision logic of a real-time speech captioning pipeline.
//!
//! Audio flows from a capture source into a lock-free ring buffer, is cut
//! into fixed-size frames, classified by a voice-activity detector and
//! segmented by a chunking state machine into provisional, final and
//! hard-cut chunks that a speech engine turns into captions.

pub mod vad;
pub mod clock;
pub mod samples;
pub mod audio;
pub mod ai;
pub mod text;
pub mod ffi;
