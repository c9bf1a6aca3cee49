//! Storage subsystem bookkeeping for the NVMe device.

use vstd::prelude::*;

use crate::hal::HalError;

verus! {

/// Storage device capabilities.
#[derive(Clone, Copy, Debug, PartialEq, Eq, Structural)]
pub struct StorageCapabilities {
    /// Total size in bytes.
    pub total_size: u64,
    /// Maximum transfer speed in bytes per second.
    pub max_transfer_speed: u64,
    /// TRIM command support.
    pub supports_trim: bool,
    /// SMART monitoring support.
    pub supports_smart: bool,
}

/// Storage device power states.
#[derive(Clone, Copy, Debug, PartialEq, Eq, Structural)]
pub enum PowerState {
    /// Full power operation.
    Active,
    /// Reduced power operation.
    LowPower,
    /// Minimal power.
    Standby,
}

/// Storage operation modes.
#[derive(Clone, Copy, Debug, PartialEq, Eq, Structural)]
pub enum OperationMode {
    /// Standard operation.
    Normal,
    /// Conservative settings for reliability.
    SafeMode,
    /// Optimized for speed.
    Performance,
}

/// Storage subsystem state.
pub struct Storage {
    /// Whether `init` has run.
    pub initialized: bool,
    /// Available space in bytes.
    pub available_space: u64,
    /// The power state last requested.
    pub power_state: PowerState,
    /// The operation mode last requested.
    pub operation_mode: OperationMode,
}

impl Storage {
    /// Build the subsystem in its power-on state.
    pub fn new() -> (s: Storage)
        ensures
            !s.initialized,
            s.available_space == 0,
    {
        Storage {
            initialized: false,
            available_space: 0,
            power_state: PowerState::Active,
            operation_mode: OperationMode::Normal,
        }
    }

    /// Initialize the NVMe controller; the device reports its capacity.
    pub fn init(&mut self) -> (r: Result<(), HalError>)
        ensures
            r == Ok::<(), HalError>(()),
            final(self).initialized,
            final(self).available_space == 256060514304u64,
            final(self).power_state == old(self).power_state,
            final(self).operation_mode == old(self).operation_mode,
    {
        self.initialized = true;
        self.available_space = 256060514304;
        Ok(())
    }

    /// Shut down: flush caches and drop to standby.
    pub fn shutdown(&mut self) -> (r: Result<(), HalError>)
        ensures
            !old(self).initialized ==> r == Err::<(), HalError>(HalError::NotInitialized) && *final(self) == *old(self),
            old(self).initialized ==> {
                &&& r == Ok::<(), HalError>(())
                &&& !final(self).initialized
                &&& final(self).power_state == PowerState::Standby
                &&& final(self).available_space == old(self).available_space
            },
    {
        if !self.initialized {
            return Err(HalError::NotInitialized);
        }
        self.power_state = PowerState::Standby;
        self.initialized = false;
        Ok(())
    }

    /// Request a device power state.
    pub fn set_power_state(&mut self, state: PowerState) -> (r: Result<(), HalError>)
        ensures
            !old(self).initialized ==> r == Err::<(), HalError>(HalError::NotInitialized) && *final(self) == *old(self),
            old(self).initialized ==> {
                &&& r == Ok::<(), HalError>(())
                &&& final(self).power_state == state
                &&& final(self).initialized
                &&& final(self).available_space == old(self).available_space
                &&& final(self).operation_mode == old(self).operation_mode
            },
    {
        if !self.initialized {
            return Err(HalError::NotInitialized);
        }
        self.power_state = state;
        Ok(())
    }

    /// The device's capabilities.
    pub fn get_capabilities(&self) -> (r: Result<StorageCapabilities, HalError>)
        ensures
            !self.initialized ==> r == Err::<StorageCapabilities, HalError>(
                HalError::NotInitialized,
            ),
            self.initialized ==> r == Ok::<StorageCapabilities, HalError>(
                StorageCapabilities {
                    total_size: 256060514304u64,
                    max_transfer_speed: 7900000000u64,
                    supports_trim: true,
                    supports_smart: true,
                },
            ),
    {
        if !self.initialized {
            return Err(HalError::NotInitialized);
        }
        Ok(
            StorageCapabilities {
                total_size: 256060514304,
                max_transfer_speed: 7900000000,
                supports_trim: true,
                supports_smart: true,
            },
        )
    }

    /// Request an operation mode.
    pub fn set_operation_mode(&mut self, mode: OperationMode) -> (r: Result<(), HalError>)
        ensures
            !old(self).initialized ==> r == Err::<(), HalError>(HalError::NotInitialized) && *final(self) == *old(self),
            old(self).initialized ==> {
                &&& r == Ok::<(), HalError>(())
                &&& final(self).operation_mode == mode
                &&& final(self).initialized
                &&& final(self).available_space == old(self).available_space
                &&& final(self).power_state == old(self).power_state
            },
    {
        if !self.initialized {
            return Err(HalError::NotInitialized);
        }
        self.operation_mode = mode;
        Ok(())
    }

    /// The available space in bytes.
    pub fn get_available_space(&self) -> (r: Result<u64, HalError>)
        ensures
            !self.initialized ==> r == Err::<u64, HalError>(HalError::NotInitialized),
            self.initialized ==> r == Ok::<u64, HalError>(self.available_space),
    {
        if !self.initialized {
            return Err(HalError::NotInitialized);
        }
        Ok(self.available_space)
    }
}

} // verus!
