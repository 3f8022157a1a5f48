use crate::conditioner::TARGET_SAMPLE_RATE;
use crate::microphone::{SampleFormat, SupportedStreamConfig};
use vstd::prelude::*;

verus! {

/// How the samples of a WAV file are encoded.
#[derive(Clone, Copy, Debug, PartialEq, Eq, Structural)]
pub enum WavSampleFormat {
    /// IEEE floating point.
    Float,
    /// Integer PCM.
    Int,
}

/// The header values of a WAV file.
#[derive(Clone, Copy, Debug, PartialEq, Eq, Structural)]
pub struct WavSpec {
    pub channels: u16,
    pub sample_rate: u32,
    pub bits_per_sample: u16,
    pub sample_format: WavSampleFormat,
}

/// The WAV encoding for samples of the device encoding `format`.
pub open spec fn wav_sample_format_of(format: SampleFormat) -> WavSampleFormat {
    if format.is_float() {
        WavSampleFormat::Float
    } else {
        WavSampleFormat::Int
    }
}

/// The WAV header for a stream of the configuration `config`: its channels
/// and rate, its encoding, and eight bits for each byte of a sample.
pub open spec fn wav_spec_of(config: SupportedStreamConfig) -> WavSpec {
    WavSpec {
        channels: config.channels,
        sample_rate: config.sample_rate,
        bits_per_sample: (config.sample_format.sample_size() * 8) as u16,
        sample_format: wav_sample_format_of(config.sample_format),
    }
}

/// The configuration of the stream of samples that an utterance is: one
/// channel at the target rate, in the encoding `format`.
pub open spec fn utterance_stream_of(format: SampleFormat) -> SupportedStreamConfig {
    SupportedStreamConfig { channels: 1, sample_rate: TARGET_SAMPLE_RATE, sample_format: format }
}

/// The WAV encoding for samples of the device encoding `format`: floating
/// point for floating point, integer for every other.
pub fn get_sample_format(format: SampleFormat) -> (wav_format: WavSampleFormat)
    ensures
        wav_format == wav_sample_format_of(format),
{
    if format.is_float() {
        WavSampleFormat::Float
    } else {
        WavSampleFormat::Int
    }
}

/// The WAV header for a stream of the configuration `config`.
pub fn get_wav_spec(config: &SupportedStreamConfig) -> (spec: WavSpec)
    ensures
        spec == wav_spec_of(*config),
{
    WavSpec {
        channels: config.channels,
        sample_rate: config.sample_rate,
        sample_format: get_sample_format(config.sample_format),
        bits_per_sample: (config.sample_format.sample_size() * 8) as u16,
    }
}

/// The WAV header under which an utterance is written when its samples are
/// in the encoding `format`.
pub fn utterance_wav_spec(format: SampleFormat) -> (spec: WavSpec)
    ensures
        spec == wav_spec_of(utterance_stream_of(format)),
        spec.channels == 1,
        spec.sample_rate == TARGET_SAMPLE_RATE,
        format == SampleFormat::F32 ==> spec.bits_per_sample == 32 && spec.sample_format
            == WavSampleFormat::Float,
{
    let stream = SupportedStreamConfig {
        channels: 1,
        sample_rate: TARGET_SAMPLE_RATE,
        sample_format: format,
    };
    get_wav_spec(&stream)
}

} // verus!
