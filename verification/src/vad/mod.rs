//! Voice activity detection bookkeeping and audio chunking.

pub mod chunking_laws;
pub mod silero;
pub mod state_machine;
