//! Decisions behind the C interface and the pipeline worker.

pub mod exports;
pub mod pipeline;
