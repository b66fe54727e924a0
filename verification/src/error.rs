//! Error taxonomy of the pipeline.

use vstd::prelude::*;

verus! {

/// Errors raised by the pipeline stages.
///
/// `ConfigurationError` is fatal at startup (for example an unsupported
/// channel count); `CaptureError` reports a device failure during streaming;
/// `ResampleError` reports a converter invariant violation, fatal to the
/// current session; `DispatchBackpressure` reports that the transcription
/// hand-off stayed full past its bounded wait.
#[derive(Debug)]
pub enum PipelineError {
    ConfigurationError(String),
    CaptureError(String),
    ResampleError(String),
    DispatchBackpressure,
}

} // verus!
