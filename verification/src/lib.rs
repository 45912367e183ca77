//! A micro-benchmark harness for the forward-pass latency of a LayerNorm
//! module, swept over the batch dimension and averaged over repeats, reported
//! as one CSV table with a row per configured batch size.

pub mod backend;
pub mod candle_backend;
mod clock;
pub mod config;
pub mod error;
pub mod report;
pub mod stats;
pub mod text;
