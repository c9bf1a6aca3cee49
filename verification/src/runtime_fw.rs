//! Runtime firmware loading: images fetched by name at run time.
//!
//! Two images are known: the WiFi firmware and the GPU display firmware.
//! Until real images are installed, each known image carries a fixed
//! stand-in byte pattern.

use vstd::prelude::*;

use vstd::string::StringExecFns;

use crate::hal::HalError;

verus! {

/// The WiFi firmware image name.
pub open spec fn spec_wifi_fw_name() -> Seq<char> {
    "rtw8852b_fw.bin"@
}

/// The GPU display firmware image name.
pub open spec fn spec_gpu_fw_name() -> Seq<char> {
    "adlp_dmc.bin"@
}

/// A vector of `count` copies of `value`.
fn fill_bytes(value: u8, count: usize) -> (r: Vec<u8>)
    ensures
        r@.len() == count,
        forall|i: int| 0 <= i < count ==> r@[i] == value,
{
    let mut r: Vec<u8> = Vec::new();
    let mut i: usize = 0;
    while i < count
        invariant
            i <= count,
            r@.len() == i as int,
            forall|k: int| 0 <= k < i as int ==> r@[k] == value,
        decreases count - i,
    {
        r.push(value);
        i = i + 1;
    }
    r
}

/// A runtime firmware image.
pub struct RuntimeFirmware {
    /// Name of the firmware file.
    pub name: String,
    /// The image data.
    pub data: Vec<u8>,
    /// Whether the data has been loaded.
    pub loaded: bool,
}

impl RuntimeFirmware {
    /// Build an unloaded image for the given file name.
    pub fn new(name: &str) -> (f: RuntimeFirmware)
        ensures
            f.name@ == name@,
            f.data@.len() == 0,
            !f.loaded,
    {
        RuntimeFirmware { name: String::from_str(name), data: Vec::new(), loaded: false }
    }

    /// Load the image.  The two known images get their stand-in byte
    /// patterns (1024 bytes of 0xFF for the WiFi image, 0xEE for the GPU
    /// image); an unknown name is a device error.  Loading twice is a
    /// no-op.
    pub fn load(&mut self) -> (r: Result<(), HalError>)
        ensures
            final(self).name@ == old(self).name@,
            old(self).loaded ==> r == Ok::<(), HalError>(()) && *final(self) == *old(self),
            !old(self).loaded && old(self).name@ == spec_wifi_fw_name() ==> {
                &&& r == Ok::<(), HalError>(())
                &&& final(self).loaded
                &&& final(self).data@.len() == 1024
                &&& forall|i: int| 0 <= i < 1024 ==> final(self).data@[i] == 0xFFu8
            },
            !old(self).loaded && old(self).name@ == spec_gpu_fw_name() ==> {
                &&& r == Ok::<(), HalError>(())
                &&& final(self).loaded
                &&& final(self).data@.len() == 1024
                &&& forall|i: int| 0 <= i < 1024 ==> final(self).data@[i] == 0xEEu8
            },
            !old(self).loaded && old(self).name@ != spec_wifi_fw_name() && old(self).name@
                != spec_gpu_fw_name() ==> r == Err::<(), HalError>(HalError::DeviceError) && *final(self) == *old(self),
    {
        if self.loaded {
            return Ok(());
        }
        proof {
            reveal_strlit("rtw8852b_fw.bin");
            reveal_strlit("adlp_dmc.bin");
            assert(spec_wifi_fw_name().len() != spec_gpu_fw_name().len());
        }
        let wifi = String::from_str("rtw8852b_fw.bin");
        if self.name.eq(&wifi) {
            self.data = fill_bytes(0xFF, 1024);
            self.loaded = true;
            return Ok(());
        }
        let gpu = String::from_str("adlp_dmc.bin");
        if self.name.eq(&gpu) {
            self.data = fill_bytes(0xEE, 1024);
            self.loaded = true;
            return Ok(());
        }
        Err(HalError::DeviceError)
    }

    /// The image data, if loaded.
    pub fn data(&self) -> (r: Option<&Vec<u8>>)
        ensures
            !self.loaded ==> r is None,
            self.loaded ==> match r {
                Some(d) => d@ == self.data@,
                None => false,
            },
    {
        if !self.loaded {
            return None;
        }
        Some(&self.data)
    }

    /// Whether the image data has been loaded.
    pub fn is_loaded(&self) -> (r: bool)
        ensures
            r == self.loaded,
    {
        self.loaded
    }

    /// The firmware file name.
    pub fn name(&self) -> (r: &str)
        ensures
            r@ == self.name@,
    {
        self.name.as_str()
    }
}

/// Whether an image with this name can be provided.
pub fn is_firmware_available(name: &String) -> (r: bool)
    ensures
        r == (name@ == spec_wifi_fw_name() || name@ == spec_gpu_fw_name()),
{
    let wifi = String::from_str("rtw8852b_fw.bin");
    if name.eq(&wifi) {
        return true;
    }
    let gpu = String::from_str("adlp_dmc.bin");
    name.eq(&gpu)
}

} // verus!
