//! Capture Source configuration: the native format negotiated with the audio
//! device when capture starts.
//!
//! Talking to the device is I/O and lives outside the library; what is
//! verified here is the initialization rule that gates the whole pipeline:
//! only mono and stereo devices are accepted, and the decision is made once,
//! before any frame is produced.

use vstd::prelude::*;

use crate::error::PipelineError;

verus! {

/// The native format the capture device delivers, fixed for the lifetime of
/// a capture session: the interleaved channel count (1 or 2) and the sample
/// rate in frames per second.
pub struct AudioInputConfig {
    pub input_channels: usize,
    pub sample_rate: usize,
}

impl AudioInputConfig {
    /// A config is well formed when its channel count is mono or stereo and
    /// its rate is positive.
    pub open spec fn wf(self) -> bool {
        (self.input_channels == 1 || self.input_channels == 2) && self.sample_rate > 0
    }

    /// Accepts a negotiated device format exactly when the channel count is
    /// 1 or 2 and the rate is positive; any other format fails fast with a
    /// configuration error, before any frame is produced.
    pub fn new(input_channels: usize, sample_rate: usize) -> (r: Result<
        AudioInputConfig,
        PipelineError,
    >)
        ensures
            match r {
                Ok(c) => c.wf() && c.input_channels == input_channels && c.sample_rate
                    == sample_rate,
                Err(e) => e is ConfigurationError && !(AudioInputConfig {
                    input_channels,
                    sample_rate,
                }).wf(),
            },
    {
        if input_channels != 1 && input_channels != 2 {
            return Err(
                PipelineError::ConfigurationError(
                    "Unsupported number of input channels. Only mono and stereo are supported.".to_owned(),
                ),
            );
        }
        if sample_rate == 0 {
            return Err(PipelineError::ConfigurationError("Sample rate must be positive.".to_owned()));
        }
        Ok(AudioInputConfig { input_channels, sample_rate })
    }
}

} // verus!
