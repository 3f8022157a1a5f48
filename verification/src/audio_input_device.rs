use crate::error::StartError;
use crate::microphone::{CapturePlan, Microphone, SampleFormat, SupportedStreamConfig};
use vstd::prelude::*;

verus! {

/// An input device as the pipeline sees it.
pub trait AudioInputDevice {
    /// The name that the device reported.
    spec fn device_name(&self) -> Seq<char>;

    /// The stream configuration that the device reported as its default.
    spec fn default_input_config(&self) -> SupportedStreamConfig;

    /// The name that the device reported.
    fn get_device_name(&self) -> (name: String)
        ensures
            name@ == self.device_name(),
    ;

    /// The sample rate of the default input configuration.
    fn get_device_sample_rate(&self) -> (sample_rate: u32)
        ensures
            sample_rate == self.default_input_config().sample_rate,
    ;

    /// The encoding of the default input configuration.
    fn get_device_sample_format(&self) -> (format: SampleFormat)
        ensures
            format == self.default_input_config().sample_format,
    ;

    /// The stream configuration that the device reported as its default.
    fn get_default_input_config(&self) -> (config: SupportedStreamConfig)
        ensures
            config == self.default_input_config(),
    ;

    /// Decides how a recording on this device starts, or that none can.
    fn start_recording(&self) -> (plan: Result<CapturePlan, StartError>)
        ensures
            plan == self.default_input_config().capture_plan(),
    ;
}

impl AudioInputDevice for Microphone {
    open spec fn device_name(&self) -> Seq<char> {
        self.name@
    }

    open spec fn default_input_config(&self) -> SupportedStreamConfig {
        self.default_input_config
    }

    fn get_device_name(&self) -> (name: String) {
        Microphone::get_device_name(self)
    }

    fn get_device_sample_rate(&self) -> (sample_rate: u32) {
        Microphone::get_device_sample_rate(self)
    }

    fn get_device_sample_format(&self) -> (format: SampleFormat) {
        Microphone::get_device_sample_format(self)
    }

    fn get_default_input_config(&self) -> (config: SupportedStreamConfig) {
        self.default_input_config
    }

    fn start_recording(&self) -> (plan: Result<CapturePlan, StartError>) {
        self.start_record()
    }
}

} // verus!
