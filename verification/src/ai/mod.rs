//! Speech engines behind one interface.

pub mod gemini_live;
pub mod sensevoice;
pub mod translator;
