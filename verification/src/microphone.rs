use crate::audio_segment::{AudioSegment, Sample};
use crate::conditioner::{resampled_len, resampled_len_of, CAPTURE_BATCH_LEN, TARGET_SAMPLE_RATE};
use crate::error::{ConfigurationError, StartError};
use crate::file_name::{recording_file_name_at, ClockReading};
use crate::scorer::SCORER_CHUNK_LEN;
use crate::segment_window::{utterance_after, window_after, SegmentWindow};
use crate::wav_writer::{utterance_stream_of, utterance_wav_spec, wav_spec_of, WavSpec};
use vstd::prelude::*;

verus! {

/// The encoding in which a device delivers its samples.
#[derive(Clone, Copy, Debug, PartialEq, Eq, Structural)]
pub enum SampleFormat {
    I8,
    I16,
    I32,
    I64,
    U8,
    U16,
    U32,
    U64,
    F32,
    F64,
}

impl SampleFormat {
    /// How many bytes one sample takes.
    pub open spec fn spec_sample_size(&self) -> usize {
        match *self {
            SampleFormat::I8 | SampleFormat::U8 => 1,
            SampleFormat::I16 | SampleFormat::U16 => 2,
            SampleFormat::I32 | SampleFormat::U32 | SampleFormat::F32 => 4,
            SampleFormat::I64 | SampleFormat::U64 | SampleFormat::F64 => 8,
        }
    }

    /// Whether the samples are floating-point numbers.
    pub open spec fn spec_is_float(&self) -> bool {
        *self == SampleFormat::F32 || *self == SampleFormat::F64
    }

    /// How many bytes one sample takes.
    #[verifier::when_used_as_spec(spec_sample_size)]
    pub fn sample_size(&self) -> (bytes: usize)
        ensures
            bytes == self.sample_size(),
            1 <= bytes <= 8,
    {
        match *self {
            SampleFormat::I8 => 1,
            SampleFormat::U8 => 1,
            SampleFormat::I16 => 2,
            SampleFormat::U16 => 2,
            SampleFormat::I32 => 4,
            SampleFormat::U32 => 4,
            SampleFormat::I64 => 8,
            SampleFormat::U64 => 8,
            SampleFormat::F32 => 4,
            SampleFormat::F64 => 8,
        }
    }

    /// Whether the samples are floating-point numbers.
    #[verifier::when_used_as_spec(spec_is_float)]
    pub fn is_float(&self) -> (float: bool)
        ensures
            float == self.is_float(),
    {
        match *self {
            SampleFormat::F32 => true,
            SampleFormat::F64 => true,
            _ => false,
        }
    }
}

/// A stream configuration that a device supports.
#[derive(Clone, Copy, Debug, PartialEq, Eq, Structural)]
pub struct SupportedStreamConfig {
    pub channels: u16,
    pub sample_rate: u32,
    pub sample_format: SampleFormat,
}

impl SupportedStreamConfig {
    /// The stream configuration for recording from a device with this
    /// default: its channels and rate, and a buffer of `CAPTURE_BATCH_LEN`
    /// for each channel.
    pub open spec fn capture_config(&self) -> StreamConfig {
        StreamConfig {
            channels: self.channels,
            sample_rate: self.sample_rate,
            buffer_size: BufferSize::Fixed((CAPTURE_BATCH_LEN * self.channels) as u32),
        }
    }

    /// Why no recording session can start on a device with this default, if
    /// none can. Only 32-bit floating-point samples are conditioned; there
    /// must be a channel and a rate; and a batch must resample to exactly the
    /// chunk that the scorer takes. The reasons are tried in this order.
    pub open spec fn start_refusal(&self) -> Option<StartError> {
        if self.sample_format != SampleFormat::F32 {
            Some(StartError::UnsupportedFormat(self.sample_format))
        } else if self.channels == 0 {
            Some(StartError::Configuration(ConfigurationError::NoChannels))
        } else if self.sample_rate == 0 {
            Some(StartError::Configuration(ConfigurationError::ZeroSampleRate))
        } else if resampled_len_of(
            CAPTURE_BATCH_LEN as int,
            self.sample_rate as int,
            TARGET_SAMPLE_RATE as int,
        ) != SCORER_CHUNK_LEN {
            Some(StartError::Configuration(ConfigurationError::ChunkSizeMismatch))
        } else {
            None
        }
    }

    /// What a recording session on a device with this default runs with,
    /// where one can start.
    pub open spec fn capture_plan(&self) -> Result<CapturePlan, StartError> {
        match self.start_refusal() {
            Some(refusal) => Err(refusal),
            None => Ok(
                CapturePlan {
                    stream_config: self.capture_config(),
                    batch_len: CAPTURE_BATCH_LEN,
                    chunk_len: SCORER_CHUNK_LEN,
                },
            ),
        }
    }
}

/// How many frames the device is asked to deliver at a time.
#[derive(Clone, Copy, Debug, PartialEq, Eq, Structural)]
pub enum BufferSize {
    Default,
    Fixed(u32),
}

/// The configuration with which a stream is opened.
#[derive(Clone, Copy, Debug, PartialEq, Eq, Structural)]
pub struct StreamConfig {
    pub channels: u16,
    pub sample_rate: u32,
    pub buffer_size: BufferSize,
}

/// What a recording session on a device runs with.
#[derive(Clone, Copy, Debug, PartialEq, Eq, Structural)]
pub struct CapturePlan {
    /// The configuration with which the input stream is opened.
    pub stream_config: StreamConfig,
    /// How many mono samples make a batch.
    pub batch_len: usize,
    /// How many samples each conditioned chunk has.
    pub chunk_len: usize,
}

/// An utterance on its way to a file.
#[derive(Clone, Debug, PartialEq, Eq)]
pub struct Recording {
    /// The name of the file, made of the local time at which the utterance
    /// ended; `None` where that time could not be written as a date.
    pub file_name: Option<String>,
    /// The header of the file.
    pub spec: WavSpec,
    /// The samples of the utterance, oldest first.
    pub samples: Vec<Sample>,
}

/// An input device, described by what it reported of itself.
#[derive(Clone, Debug, PartialEq, Eq)]
pub struct Microphone {
    pub name: String,
    pub default_input_config: SupportedStreamConfig,
}

impl Microphone {
    /// The microphone for the device that reported `name` and
    /// `default_input_config`.
    pub fn new(name: String, default_input_config: SupportedStreamConfig) -> (microphone: Self)
        ensures
            microphone.name == name,
            microphone.default_input_config == default_input_config,
    {
        Microphone { name, default_input_config }
    }

    /// The name that the device reported.
    pub fn get_device_name(&self) -> (name: String)
        ensures
            name@ == self.name@,
    {
        self.name.clone()
    }

    /// The encoding of the device's default input configuration.
    pub fn get_device_sample_format(&self) -> (format: SampleFormat)
        ensures
            format == self.default_input_config.sample_format,
    {
        self.default_input_config.sample_format
    }

    /// The stream configuration for recording from this device.
    pub fn get_device_config(&self) -> (config: StreamConfig)
        ensures
            config == self.default_input_config.capture_config(),
    {
        StreamConfig {
            channels: self.default_input_config.channels,
            sample_rate: self.default_input_config.sample_rate,
            buffer_size: BufferSize::Fixed(
                CAPTURE_BATCH_LEN as u32 * (self.default_input_config.channels as u32),
            ),
        }
    }

    /// The channel count of the device's default input configuration.
    pub fn get_device_channels(&self) -> (channels: u16)
        ensures
            channels == self.default_input_config.channels,
    {
        self.default_input_config.channels
    }

    /// The sample rate of the device's default input configuration.
    pub fn get_device_sample_rate(&self) -> (sample_rate: u32)
        ensures
            sample_rate == self.default_input_config.sample_rate,
    {
        self.default_input_config.sample_rate
    }

    /// Decides how a recording session on this device starts: with which
    /// stream configuration and which batch and chunk lengths, or not at all.
    pub fn start_record(&self) -> (plan: Result<CapturePlan, StartError>)
        ensures
            plan == self.default_input_config.capture_plan(),
    {
        let config = self.default_input_config;
        match config.sample_format {
            SampleFormat::F32 => {},
            _ => {
                return Err(StartError::UnsupportedFormat(config.sample_format));
            },
        }
        if config.channels == 0 {
            return Err(StartError::Configuration(ConfigurationError::NoChannels));
        }
        if config.sample_rate == 0 {
            return Err(StartError::Configuration(ConfigurationError::ZeroSampleRate));
        }
        assert(resampled_len_of(
            CAPTURE_BATCH_LEN as int,
            config.sample_rate as int,
            TARGET_SAMPLE_RATE as int,
        ) <= CAPTURE_BATCH_LEN * TARGET_SAMPLE_RATE) by (nonlinear_arith)
            requires
                config.sample_rate > 0,
        ;
        if resampled_len(CAPTURE_BATCH_LEN, config.sample_rate, TARGET_SAMPLE_RATE)
            != SCORER_CHUNK_LEN {
            return Err(StartError::Configuration(ConfigurationError::ChunkSizeMismatch));
        }
        Ok(
            CapturePlan {
                stream_config: self.get_device_config(),
                batch_len: CAPTURE_BATCH_LEN,
                chunk_len: SCORER_CHUNK_LEN,
            },
        )
    }

    /// Takes a scored segment of this device's stream into `window`. Where
    /// that ends an utterance, the utterance comes back ready for its file:
    /// named after the local time that the clock showed, with the header for
    /// mono samples at the target rate in the device's encoding.
    pub fn process_audio_data(
        &self,
        window: &mut SegmentWindow,
        segment: AudioSegment,
        now: ClockReading,
    ) -> (recording: Option<Recording>)
        ensures
            final(window).config() == old(window).config(),
            final(window)@ == window_after(old(window).config(), old(window)@, segment),
            recording is Some <==> utterance_after(old(window).config(), old(window)@, segment)
                is Some,
            recording matches Some(r) ==> {
                &&& utterance_after(old(window).config(), old(window)@, segment) == Some(
                    r.samples@,
                )
                &&& r.spec == wav_spec_of(
                    utterance_stream_of(self.default_input_config.sample_format),
                )
                &&& match r.file_name {
                    Some(name) => now.file_name() == Some(name@),
                    None => now.file_name() is None,
                }
            },
    {
        match window.accept(segment) {
            Some(samples) => {
                let file_name = recording_file_name_at(now);
                let spec = utterance_wav_spec(self.get_device_sample_format());
                Some(Recording { file_name, spec, samples })
            },
            None => None,
        }
    }
}

} // verus!
