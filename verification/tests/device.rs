use utterance_segmenter::audio_input_device::AudioInputDevice;
use utterance_segmenter::audio_input_device_manager::AudioInputDeviceManager;
use utterance_segmenter::error::{ConfigurationError, StartError};
use utterance_segmenter::microphone::{
    BufferSize, CapturePlan, Microphone, SampleFormat, StreamConfig, SupportedStreamConfig,
};

fn device(channels: u16, sample_rate: u32, sample_format: SampleFormat) -> Microphone {
    Microphone::new(
        String::from("built-in"),
        SupportedStreamConfig { channels, sample_rate, sample_format },
    )
}

#[test]
fn microphone_reports_what_its_device_reported() {
    let microphone = device(2, 48_000, SampleFormat::F32);
    assert_eq!(microphone.get_device_name(), "built-in");
    assert_eq!(microphone.get_device_channels(), 2);
    assert_eq!(microphone.get_device_sample_rate(), 48_000);
    assert_eq!(microphone.get_device_sample_format(), SampleFormat::F32);
}

#[test]
fn device_config_asks_for_a_batch_for_each_channel() {
    assert_eq!(
        device(2, 48_000, SampleFormat::F32).get_device_config(),
        StreamConfig { channels: 2, sample_rate: 48_000, buffer_size: BufferSize::Fixed(6144) }
    );
    assert_eq!(
        device(1, 44_100, SampleFormat::I16).get_device_config(),
        StreamConfig { channels: 1, sample_rate: 44_100, buffer_size: BufferSize::Fixed(3072) }
    );
    assert_eq!(
        device(u16::MAX, 1, SampleFormat::F32).get_device_config().buffer_size,
        BufferSize::Fixed(201_323_520)
    );
}

#[test]
fn sample_sizes_in_bytes() {
    assert_eq!(SampleFormat::I8.sample_size(), 1);
    assert_eq!(SampleFormat::U8.sample_size(), 1);
    assert_eq!(SampleFormat::I16.sample_size(), 2);
    assert_eq!(SampleFormat::U16.sample_size(), 2);
    assert_eq!(SampleFormat::I32.sample_size(), 4);
    assert_eq!(SampleFormat::U32.sample_size(), 4);
    assert_eq!(SampleFormat::F32.sample_size(), 4);
    assert_eq!(SampleFormat::I64.sample_size(), 8);
    assert_eq!(SampleFormat::U64.sample_size(), 8);
    assert_eq!(SampleFormat::F64.sample_size(), 8);
}

#[test]
fn only_f32_and_f64_are_float() {
    assert!(SampleFormat::F32.is_float());
    assert!(SampleFormat::F64.is_float());
    assert!(!SampleFormat::I32.is_float());
    assert!(!SampleFormat::U64.is_float());
    assert!(!SampleFormat::U8.is_float());
}

#[test]
fn recording_starts_on_a_48_khz_float_device() {
    assert_eq!(
        device(2, 48_000, SampleFormat::F32).start_record(),
        Ok(CapturePlan {
            stream_config: StreamConfig {
                channels: 2,
                sample_rate: 48_000,
                buffer_size: BufferSize::Fixed(6144),
            },
            batch_len: 3072,
            chunk_len: 1024,
        })
    );
}

#[test]
fn recording_does_not_start_on_another_encoding() {
    assert_eq!(
        device(2, 48_000, SampleFormat::I16).start_record(),
        Err(StartError::UnsupportedFormat(SampleFormat::I16))
    );
    assert_eq!(
        device(0, 0, SampleFormat::F64).start_record(),
        Err(StartError::UnsupportedFormat(SampleFormat::F64))
    );
}

#[test]
fn recording_does_not_start_without_channels() {
    assert_eq!(
        device(0, 48_000, SampleFormat::F32).start_record(),
        Err(StartError::Configuration(ConfigurationError::NoChannels))
    );
    assert_eq!(
        device(0, 0, SampleFormat::F32).start_record(),
        Err(StartError::Configuration(ConfigurationError::NoChannels))
    );
}

#[test]
fn recording_does_not_start_at_a_rate_of_zero() {
    assert_eq!(
        device(1, 0, SampleFormat::F32).start_record(),
        Err(StartError::Configuration(ConfigurationError::ZeroSampleRate))
    );
}

#[test]
fn recording_does_not_start_where_a_batch_is_no_scorer_chunk() {
    assert_eq!(
        device(1, 44_100, SampleFormat::F32).start_record(),
        Err(StartError::Configuration(ConfigurationError::ChunkSizeMismatch))
    );
    assert_eq!(
        device(1, 16_000, SampleFormat::F32).start_record(),
        Err(StartError::Configuration(ConfigurationError::ChunkSizeMismatch))
    );
}

#[test]
fn manager_makes_a_microphone_of_each_listed_device() {
    let manager = AudioInputDeviceManager::new();
    let first = SupportedStreamConfig {
        channels: 1,
        sample_rate: 48_000,
        sample_format: SampleFormat::F32,
    };
    let second = SupportedStreamConfig {
        channels: 2,
        sample_rate: 44_100,
        sample_format: SampleFormat::I16,
    };
    let microphones = manager.get_available_microphones(vec![
        (String::from("headset"), first),
        (String::from("line in"), second),
    ]);
    assert_eq!(
        microphones,
        vec![
            Microphone::new(String::from("headset"), first),
            Microphone::new(String::from("line in"), second),
        ]
    );
    assert_eq!(manager.get_available_microphones(vec![]), vec![]);
}

fn described<D: AudioInputDevice>(device: &D) -> (String, u32, SampleFormat, SupportedStreamConfig) {
    (
        device.get_device_name(),
        device.get_device_sample_rate(),
        device.get_device_sample_format(),
        device.get_default_input_config(),
    )
}

fn started<D: AudioInputDevice>(device: &D) -> Result<CapturePlan, StartError> {
    device.start_recording()
}

#[test]
fn microphone_is_an_input_device() {
    let config = SupportedStreamConfig {
        channels: 1,
        sample_rate: 48_000,
        sample_format: SampleFormat::F32,
    };
    let microphone = Microphone::new(String::from("usb"), config);
    assert_eq!(
        described(&microphone),
        (String::from("usb"), 48_000, SampleFormat::F32, config)
    );
    assert_eq!(started(&microphone), microphone.start_record());
    assert_eq!(
        started(&device(1, 48_000, SampleFormat::U8)),
        Err(StartError::UnsupportedFormat(SampleFormat::U8))
    );
}
