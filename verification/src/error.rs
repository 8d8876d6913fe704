//! The pipeline's error taxonomy.
//!
//! All of these are fatal: each one aborts the run and is rendered as a single
//! human-readable message at the orchestration boundary. The one failure that
//! is recovered locally — a single packet failing to decode mid-stream — is
//! deliberately not an error here; the extractor skips such packets and keeps
//! going.

use vstd::prelude::*;

verus! {

/// A fatal pipeline failure.
///
/// `MediaOpen`, `NoVideoStream` and `DecoderInit` arise while setting up the
/// decode session; `InvalidNormalization` arises when per-pixel normalization
/// is requested but no frame ever decoded, so the pixel count is zero;
/// `EmptySeries` and `RenderIo` arise while planning and persisting the chart.
#[derive(Clone, Copy, Debug, PartialEq, Eq, Structural)]
pub enum PipelineError {
    /// The input path could not be opened as a recognized media container.
    MediaOpen,
    /// The container holds no video stream.
    NoVideoStream,
    /// A decoder could not be initialized for the selected stream.
    DecoderInit,
    /// Per-pixel normalization was requested but the captured pixel count is zero.
    InvalidNormalization,
    /// The series to render has no elements, so maximum and mean are undefined.
    EmptySeries,
    /// The chart could not be written to the destination path.
    RenderIo,
}

impl PipelineError {
    /// A human-readable description of the failure.
    pub fn describe(&self) -> (r: &'static str)
        ensures
            self is MediaOpen ==> r@ == "failed to open input as a media container"@,
            self is NoVideoStream ==> r@ == "failed to find video stream"@,
            self is DecoderInit ==> r@ == "failed to initialize a video decoder"@,
            self is InvalidNormalization ==> r@ == "cannot normalize per pixel: no frame was decoded"@,
            self is EmptySeries ==> r@ == "cannot render an empty series"@,
            self is RenderIo ==> r@ == "failed to write the chart to the output path"@,
    {
        match self {
            PipelineError::MediaOpen => "failed to open input as a media container",
            PipelineError::NoVideoStream => "failed to find video stream",
            PipelineError::DecoderInit => "failed to initialize a video decoder",
            PipelineError::InvalidNormalization => "cannot normalize per pixel: no frame was decoded",
            PipelineError::EmptySeries => "cannot render an empty series",
            PipelineError::RenderIo => "failed to write the chart to the output path",
        }
    }
}

} // verus!
