//! The hardware abstraction layer: its error taxonomy and the aggregate
//! that owns every subsystem and initializes them in dependency order.

use vstd::prelude::*;

use crate::audio::Audio;
use crate::bluetooth::Bluetooth;
use crate::cpu::Cpu;
use crate::gpu::Gpu;
use crate::net::Net;
use crate::storage::Storage;

verus! {

/// Errors surfaced by the hardware abstraction layer and the services
/// built on top of it.
#[derive(Clone, Copy, Debug, PartialEq, Eq, Structural)]
pub enum HalError {
    /// A call arrived before the subsystem was initialized.
    NotInitialized,
    /// The hardware required for the call is not present.
    UnsupportedHardware,
    /// The device rejected or failed the request.
    DeviceError,
    /// An input/output error occurred.
    IoError,
    /// A buffer was too large or otherwise unusable.
    BufferError,
    /// An argument violated the call's contract.
    InvalidArgument,
    /// The named core does not exist in the discovered topology.
    CoreNotFound,
    /// A task with the same id is already scheduled.
    DuplicateTask,
}

/// The hardware abstraction layer: one state object per subsystem.
pub struct Hal {
    /// CPU subsystem.
    pub cpu: Cpu,
    /// Storage subsystem.
    pub storage: Storage,
    /// GPU subsystem.
    pub gpu: Gpu,
    /// Audio subsystem.
    pub audio: Audio,
    /// Network subsystem.
    pub net: Net,
    /// Bluetooth subsystem.
    pub bluetooth: Bluetooth,
}

/// Build the layer with every subsystem in its power-on state.
pub fn new() -> (h: Hal)
    ensures
        h.audio.wf(),
        !h.cpu.initialized,
        !h.storage.initialized,
        !h.gpu.initialized,
        !h.audio.initialized,
        !h.net.wifi_initialized,
        !h.net.eth_initialized,
        !h.bluetooth.initialized,
{
    Hal {
        cpu: Cpu::new(),
        storage: Storage::new(),
        gpu: Gpu::new(),
        audio: Audio::new(),
        net: Net::new(),
        bluetooth: Bluetooth::new(),
    }
}

/// Initialize all hardware subsystems, in dependency order.
pub fn init(hal: &mut Hal) -> (r: Result<(), HalError>)
    requires
        old(hal).audio.wf(),
    ensures
        r == Ok::<(), HalError>(()),
        final(hal).audio.wf(),
        final(hal).cpu.initialized,
        final(hal).storage.initialized,
        final(hal).gpu.initialized,
        final(hal).audio.initialized,
        final(hal).net.wifi_initialized,
        final(hal).net.eth_initialized,
        final(hal).bluetooth.initialized,
{
    match hal.cpu.init() {
        Ok(_) => {},
        Err(e) => {
            return Err(e);
        },
    }
    match hal.storage.init() {
        Ok(_) => {},
        Err(e) => {
            return Err(e);
        },
    }
    match hal.gpu.init() {
        Ok(_) => {},
        Err(e) => {
            return Err(e);
        },
    }
    match hal.audio.init() {
        Ok(_) => {},
        Err(e) => {
            return Err(e);
        },
    }
    match hal.net.init() {
        Ok(_) => {},
        Err(e) => {
            return Err(e);
        },
    }
    match hal.bluetooth.init() {
        Ok(_) => {},
        Err(e) => {
            return Err(e);
        },
    }
    Ok(())
}

/// Shut down all hardware subsystems, in reverse order of initialization.
/// A subsystem that was never initialized stops the sequence with
/// `NotInitialized`.
pub fn shutdown(hal: &mut Hal) -> (r: Result<(), HalError>)
    requires
        old(hal).audio.wf(),
    ensures
        final(hal).audio.wf(),
        old(hal).audio.initialized && old(hal).storage.initialized ==> {
            &&& r == Ok::<(), HalError>(())
            &&& !final(hal).cpu.initialized
            &&& !final(hal).storage.initialized
            &&& !final(hal).gpu.initialized
            &&& !final(hal).audio.initialized
            &&& !final(hal).net.wifi_initialized
            &&& !final(hal).net.eth_initialized
            &&& !final(hal).bluetooth.initialized
        },
        !old(hal).audio.initialized ==> r == Err::<(), HalError>(HalError::NotInitialized),
{
    match hal.bluetooth.shutdown() {
        Ok(_) => {},
        Err(e) => {
            return Err(e);
        },
    }
    match hal.net.shutdown() {
        Ok(_) => {},
        Err(e) => {
            return Err(e);
        },
    }
    match hal.audio.shutdown() {
        Ok(_) => {},
        Err(e) => {
            return Err(e);
        },
    }
    match hal.gpu.shutdown() {
        Ok(_) => {},
        Err(e) => {
            return Err(e);
        },
    }
    match hal.storage.shutdown() {
        Ok(_) => {},
        Err(e) => {
            return Err(e);
        },
    }
    match hal.cpu.shutdown() {
        Ok(_) => {},
        Err(e) => {
            return Err(e);
        },
    }
    Ok(())
}

} // verus!
