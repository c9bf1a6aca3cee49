//! Audio subsystem bookkeeping for the HD Audio controller.

use vstd::prelude::*;

use crate::hal::HalError;

verus! {

/// An audio stream format.
#[derive(Clone, Copy, Debug, PartialEq, Eq, Structural)]
pub struct AudioFormat {
    /// Channel count.
    pub channels: u8,
    /// Sample rate in Hz.
    pub sample_rate: u32,
    /// Bits per sample.
    pub bits_per_sample: u8,
}

/// Audio output devices.
#[derive(Clone, Copy, Debug, PartialEq, Eq, Structural)]
pub enum OutputDevice {
    /// Built-in speakers.
    InternalSpeakers,
    /// Wired headphones.
    Headphones,
    /// HDMI audio.
    HDMI,
}

/// Audio input devices.
#[derive(Clone, Copy, Debug, PartialEq, Eq, Structural)]
pub enum InputDevice {
    /// Built-in microphone.
    InternalMic,
    /// Headset microphone.
    HeadsetMic,
}

/// Audio subsystem state.
pub struct Audio {
    /// Whether `init` has run.
    pub initialized: bool,
    /// Master volume, 0-100.
    pub volume: u8,
    /// Active output device.
    pub output_device: OutputDevice,
    /// Active input device.
    pub input_device: InputDevice,
}

impl Audio {
    /// The volume stays a percentage.
    pub open spec fn wf(self) -> bool {
        self.volume <= 100
    }

    /// Build the subsystem in its power-on state.
    pub fn new() -> (a: Audio)
        ensures
            a.wf(),
            !a.initialized,
            a.volume == 0,
    {
        Audio {
            initialized: false,
            volume: 0,
            output_device: OutputDevice::InternalSpeakers,
            input_device: InputDevice::InternalMic,
        }
    }

    /// Initialize the audio subsystem; the volume starts at 50%.
    pub fn init(&mut self) -> (r: Result<(), HalError>)
        requires
            old(self).wf(),
        ensures
            final(self).wf(),
            r == Ok::<(), HalError>(()),
            final(self).initialized,
            final(self).volume == 50,
            final(self).output_device == old(self).output_device,
            final(self).input_device == old(self).input_device,
    {
        self.initialized = true;
        self.volume = 50;
        Ok(())
    }

    /// Shut down the audio subsystem.
    pub fn shutdown(&mut self) -> (r: Result<(), HalError>)
        requires
            old(self).wf(),
        ensures
            final(self).wf(),
            !old(self).initialized ==> r == Err::<(), HalError>(HalError::NotInitialized) && *final(self) == *old(self),
            old(self).initialized ==> r == Ok::<(), HalError>(()) && !final(self).initialized
                && final(self).volume == old(self).volume,
    {
        if !self.initialized {
            return Err(HalError::NotInitialized);
        }
        self.initialized = false;
        Ok(())
    }

    /// Set the master volume; values above 100 are clamped to 100.
    pub fn set_volume(&mut self, volume: u8) -> (r: Result<(), HalError>)
        requires
            old(self).wf(),
        ensures
            final(self).wf(),
            !old(self).initialized ==> r == Err::<(), HalError>(HalError::NotInitialized) && *final(self) == *old(self),
            old(self).initialized ==> {
                &&& r == Ok::<(), HalError>(())
                &&& final(self).volume == if volume <= 100 {
                    volume
                } else {
                    100u8
                }
                &&& final(self).initialized
                &&& final(self).output_device == old(self).output_device
                &&& final(self).input_device == old(self).input_device
            },
    {
        if !self.initialized {
            return Err(HalError::NotInitialized);
        }
        self.volume = if volume < 100 {
            volume
        } else {
            100
        };
        Ok(())
    }

    /// Read the master volume.
    pub fn get_volume(&self) -> (r: Result<u8, HalError>)
        ensures
            !self.initialized ==> r == Err::<u8, HalError>(HalError::NotInitialized),
            self.initialized ==> r == Ok::<u8, HalError>(self.volume),
    {
        if !self.initialized {
            return Err(HalError::NotInitialized);
        }
        Ok(self.volume)
    }

    /// Select the active output device.
    pub fn set_output_device(&mut self, device: OutputDevice) -> (r: Result<(), HalError>)
        requires
            old(self).wf(),
        ensures
            final(self).wf(),
            !old(self).initialized ==> r == Err::<(), HalError>(HalError::NotInitialized) && *final(self) == *old(self),
            old(self).initialized ==> {
                &&& r == Ok::<(), HalError>(())
                &&& final(self).output_device == device
                &&& final(self).initialized
                &&& final(self).volume == old(self).volume
                &&& final(self).input_device == old(self).input_device
            },
    {
        if !self.initialized {
            return Err(HalError::NotInitialized);
        }
        self.output_device = device;
        Ok(())
    }

    /// Select the active input device.
    pub fn set_input_device(&mut self, device: InputDevice) -> (r: Result<(), HalError>)
        requires
            old(self).wf(),
        ensures
            final(self).wf(),
            !old(self).initialized ==> r == Err::<(), HalError>(HalError::NotInitialized) && *final(self) == *old(self),
            old(self).initialized ==> {
                &&& r == Ok::<(), HalError>(())
                &&& final(self).input_device == device
                &&& final(self).initialized
                &&& final(self).volume == old(self).volume
                &&& final(self).output_device == old(self).output_device
            },
    {
        if !self.initialized {
            return Err(HalError::NotInitialized);
        }
        self.input_device = device;
        Ok(())
    }

    /// Open an audio stream with the given format.
    pub fn create_stream(&self, format: AudioFormat) -> (r: Result<(), HalError>)
        ensures
            !self.initialized ==> r == Err::<(), HalError>(HalError::NotInitialized),
            self.initialized ==> r == Ok::<(), HalError>(()),
    {
        if !self.initialized {
            return Err(HalError::NotInitialized);
        }
        Ok(())
    }

    /// The formats the controller supports: stereo at 44.1/16, 48/24 and
    /// 96 kHz/32.
    pub fn get_supported_formats(&self) -> (r: Result<Vec<AudioFormat>, HalError>)
        ensures
            !self.initialized ==> r == Err::<Vec<AudioFormat>, HalError>(HalError::NotInitialized),
            self.initialized ==> match r {
                Ok(v) => v@ == seq![
                    (AudioFormat { channels: 2, sample_rate: 44100, bits_per_sample: 16 }),
                    (AudioFormat { channels: 2, sample_rate: 48000, bits_per_sample: 24 }),
                    (AudioFormat { channels: 2, sample_rate: 96000, bits_per_sample: 32 }),
                ],
                Err(_) => false,
            },
    {
        if !self.initialized {
            return Err(HalError::NotInitialized);
        }
        let mut v: Vec<AudioFormat> = Vec::new();
        v.push(AudioFormat { channels: 2, sample_rate: 44100, bits_per_sample: 16 });
        v.push(AudioFormat { channels: 2, sample_rate: 48000, bits_per_sample: 24 });
        v.push(AudioFormat { channels: 2, sample_rate: 96000, bits_per_sample: 32 });
        proof {
            assert(v@ =~= seq![
                (AudioFormat { channels: 2, sample_rate: 44100, bits_per_sample: 16 }),
                (AudioFormat { channels: 2, sample_rate: 48000, bits_per_sample: 24 }),
                (AudioFormat { channels: 2, sample_rate: 96000, bits_per_sample: 32 }),
            ]);
        }
        Ok(v)
    }
}

} // verus!
