use crate::microphone::SampleFormat;
use vstd::prelude::*;

verus! {

/// A combination of parameters under which no recording session may start.
#[derive(Clone, Copy, Debug, PartialEq, Eq, Structural)]
pub enum ConfigurationError {
    /// The pause rule averages the window past its lead frames, so the lead
    /// frames must be fewer than the window holds.
    LeadFramesNotBelowWindow,
    /// A conditioned chunk does not have the length the scorer works on.
    ChunkSizeMismatch,
    /// A sample rate of zero.
    ZeroSampleRate,
    /// A capture source without channels.
    NoChannels,
}

/// Why a recording session on a device cannot start.
#[derive(Clone, Copy, Debug, PartialEq, Eq, Structural)]
pub enum StartError {
    /// The device delivers samples in an encoding that is not conditioned.
    UnsupportedFormat(SampleFormat),
    /// The device's parameters do not fit the pipeline's.
    Configuration(ConfigurationError),
}

} // verus!
