//! Firmware images: loading and holding device firmware data.

use vstd::prelude::*;

use crate::hal::HalError;

verus! {

/// Largest firmware image supported, 16 MiB.
pub const MAX_FIRMWARE_SIZE: usize = 16 * 1024 * 1024;

/// Firmware loading states.
#[derive(Clone, Copy, Debug, PartialEq, Eq, Structural)]
pub enum FirmwareState {
    /// No data loaded.
    NotLoaded,
    /// Loading in progress.
    Loading,
    /// Data loaded and usable.
    Ready,
    /// Loading failed.
    Error,
}

/// Descriptor of a firmware image.
#[derive(Clone, Copy, Debug, PartialEq, Eq)]
pub struct FirmwareDesc {
    /// Name of the firmware file.
    pub name: &'static str,
    /// Device id the firmware belongs to.
    pub device_id: u16,
    /// Firmware version.
    pub version: u32,
    /// Firmware flags.
    pub flags: u32,
}

/// A firmware image: its descriptor and, once loaded, its data.
pub struct Firmware {
    /// The image's descriptor.
    pub desc: FirmwareDesc,
    /// The image data.
    pub data: Vec<u8>,
    /// Whether the data has been loaded.
    pub loaded: bool,
}

impl Firmware {
    /// Build an unloaded firmware image.
    pub fn new(desc: FirmwareDesc) -> (f: Firmware)
        ensures
            f.desc == desc,
            f.data@.len() == 0,
            !f.loaded,
    {
        Firmware { desc, data: Vec::new(), loaded: false }
    }

    /// Load image data, replacing anything loaded before.  Data over the
    /// size limit is rejected and clears nothing.
    pub fn load(&mut self, data: &Vec<u8>) -> (r: Result<(), HalError>)
        ensures
            final(self).desc == old(self).desc,
            data@.len() > MAX_FIRMWARE_SIZE ==> r == Err::<(), HalError>(HalError::BufferError)
                && *final(self) == *old(self),
            data@.len() <= MAX_FIRMWARE_SIZE ==> {
                &&& r == Ok::<(), HalError>(())
                &&& final(self).data@ == data@
                &&& final(self).loaded
            },
    {
        if data.len() > MAX_FIRMWARE_SIZE {
            return Err(HalError::BufferError);
        }
        let mut copy: Vec<u8> = Vec::new();
        let mut i: usize = 0;
        while i < data.len()
            invariant
                i <= data@.len(),
                copy@ == data@.subrange(0, i as int),
            decreases data@.len() - i as int,
        {
            copy.push(data[i]);
            proof {
                assert(copy@ =~= data@.subrange(0, i as int + 1));
            }
            i = i + 1;
        }
        proof {
            assert(data@.subrange(0, data@.len() as int) =~= data@);
        }
        self.data = copy;
        self.loaded = true;
        Ok(())
    }

    /// The image data, if loaded.
    pub fn data(&self) -> (r: Option<&Vec<u8>>)
        ensures
            !self.loaded ==> r is None,
            self.loaded ==> match r {
                Some(d) => d@ == self.data@,
                None => false,
            },
    {
        if !self.loaded {
            return None;
        }
        Some(&self.data)
    }

    /// Whether the image data has been loaded.
    pub fn is_loaded(&self) -> (r: bool)
        ensures
            r == self.loaded,
    {
        self.loaded
    }
}

} // verus!
