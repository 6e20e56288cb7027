//! Audio capture decisions, buffering and framing.

pub mod capture;
pub mod framing;
pub mod ring_buffer;
