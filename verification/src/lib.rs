//! Per-frame bitrate analysis for compressed video streams.
//!
//! The library holds the verified core of a two-stage pipeline: a frame-size
//! extractor that folds a stream of decode events into a series of per-frame
//! encoded sizes, and a chart planner that turns such a series into the exact
//! statistics and layout a bitmap line chart is drawn from. Opening media
//! files, running the decoder and rasterising the chart are left to external
//! collaborators; the library works on the plain values they produce.

pub mod chart;
pub mod error;
pub mod extract;
pub mod transform;

pub use error::PipelineError;
