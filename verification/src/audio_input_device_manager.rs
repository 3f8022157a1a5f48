use crate::microphone::{Microphone, SupportedStreamConfig};
use vstd::prelude::*;

verus! {

/// Turns what the audio host reports of its input devices into microphones.
#[derive(Clone, Copy, Debug, PartialEq, Eq, Structural)]
pub struct AudioInputDeviceManager;

impl AudioInputDeviceManager {
    /// The manager. It holds nothing: what there is to know of the devices
    /// comes with each listing.
    pub fn new() -> (manager: Self)
        ensures
            manager == AudioInputDeviceManager,
    {
        AudioInputDeviceManager
    }

    /// The microphones for the input devices that the host listed, each with
    /// the name and default configuration that its device reported, in the
    /// order of the listing.
    pub fn get_available_microphones(&self, devices: Vec<(String, SupportedStreamConfig)>) -> (microphones:
        Vec<Microphone>)
        ensures
            microphones@.len() == devices@.len(),
            forall|i: int|
                0 <= i < devices@.len() ==> {
                    &&& (#[trigger] microphones@[i]).name@ == devices@[i].0@
                    &&& microphones@[i].default_input_config == devices@[i].1
                },
    {
        let mut microphones: Vec<Microphone> = Vec::new();
        let mut i: usize = 0;
        while i < devices.len()
            invariant
                i <= devices@.len(),
                microphones@.len() == i,
                forall|j: int|
                    0 <= j < i ==> {
                        &&& (#[trigger] microphones@[j]).name@ == devices@[j].0@
                        &&& microphones@[j].default_input_config == devices@[j].1
                    },
            decreases devices@.len() - i,
        {
            let microphone = Microphone::new(devices[i].0.clone(), devices[i].1);
            microphones.push(microphone);
            i = i + 1;
        }
        microphones
    }
}

} // verus!
