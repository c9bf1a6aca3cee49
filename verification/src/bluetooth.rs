//! Bluetooth subsystem bookkeeping for the USB radio.

use vstd::prelude::*;

use crate::hal::HalError;

verus! {

/// Bluetooth controller capabilities.
#[derive(Clone, Copy, Debug, PartialEq, Eq)]
pub struct BluetoothCapabilities {
    /// Major and minor protocol version.
    pub version: (u8, u8),
    /// Maximum simultaneous connections.
    pub max_connections: u8,
    /// Low Energy support.
    pub supports_le: bool,
    /// Classic (BR/EDR) support.
    pub supports_br_edr: bool,
    /// Maximum data rate in bits per second.
    pub max_data_rate: u32,
}

/// Bluetooth connection types.
#[derive(Clone, Copy, Debug, PartialEq, Eq, Structural)]
pub enum ConnectionType {
    /// Classic BR/EDR.
    Classic,
    /// Low Energy.
    LowEnergy,
}

/// Bluetooth power modes.
#[derive(Clone, Copy, Debug, PartialEq, Eq, Structural)]
pub enum PowerMode {
    /// Radio off.
    Off,
    /// Radio on.
    On,
    /// Radio on and discoverable.
    Discovery,
}

/// Bluetooth subsystem state.
pub struct Bluetooth {
    /// Whether `init` has run.
    pub initialized: bool,
    /// Whether the radio is powered.
    pub powered: bool,
}

impl Bluetooth {
    /// Build the subsystem in its power-on state.
    pub fn new() -> (b: Bluetooth)
        ensures
            !b.initialized,
            !b.powered,
    {
        Bluetooth { initialized: false, powered: false }
    }

    /// Initialize the controller.  A second call is a no-op.
    pub fn init(&mut self) -> (r: Result<(), HalError>)
        ensures
            r == Ok::<(), HalError>(()),
            final(self).initialized,
            old(self).initialized ==> *final(self) == *old(self),
            !old(self).initialized ==> final(self).powered == old(self).powered,
    {
        if self.initialized {
            return Ok(());
        }
        self.initialized = true;
        Ok(())
    }

    /// Shut down the controller and power the radio down.  Shutting down
    /// an uninitialized controller is a no-op.
    pub fn shutdown(&mut self) -> (r: Result<(), HalError>)
        ensures
            r == Ok::<(), HalError>(()),
            !old(self).initialized ==> *final(self) == *old(self),
            old(self).initialized ==> !final(self).initialized && !final(self).powered,
    {
        if !self.initialized {
            return Ok(());
        }
        self.powered = false;
        self.initialized = false;
        Ok(())
    }

    /// Switch the radio power mode; `On` and `Discovery` power it up.
    pub fn set_power_mode(&mut self, mode: PowerMode) -> (r: Result<(), HalError>)
        ensures
            !old(self).initialized ==> r == Err::<(), HalError>(HalError::NotInitialized) && *final(self) == *old(self),
            old(self).initialized ==> {
                &&& r == Ok::<(), HalError>(())
                &&& final(self).initialized
                &&& final(self).powered == (mode != PowerMode::Off)
            },
    {
        if !self.initialized {
            return Err(HalError::NotInitialized);
        }
        match mode {
            PowerMode::Off => {
                self.powered = false;
            },
            PowerMode::On => {
                self.powered = true;
            },
            PowerMode::Discovery => {
                self.powered = true;
            },
        }
        Ok(())
    }

    /// The controller's capabilities: Bluetooth 5.2, seven connections,
    /// LE and classic, 3 Mbit/s.
    pub fn get_capabilities(&self) -> (r: Result<BluetoothCapabilities, HalError>)
        ensures
            !self.initialized ==> r == Err::<BluetoothCapabilities, HalError>(
                HalError::NotInitialized,
            ),
            self.initialized ==> r == Ok::<BluetoothCapabilities, HalError>(
                BluetoothCapabilities {
                    version: (5, 2),
                    max_connections: 7,
                    supports_le: true,
                    supports_br_edr: true,
                    max_data_rate: 3000000,
                },
            ),
    {
        if !self.initialized {
            return Err(HalError::NotInitialized);
        }
        Ok(
            BluetoothCapabilities {
                version: (5, 2),
                max_connections: 7,
                supports_le: true,
                supports_br_edr: true,
                max_data_rate: 3000000,
            },
        )
    }

    /// Start device discovery; the radio must be powered.
    pub fn start_discovery(&self, conn_type: ConnectionType) -> (r: Result<(), HalError>)
        ensures
            !self.powered ==> r == Err::<(), HalError>(HalError::NotInitialized),
            self.powered ==> r == Ok::<(), HalError>(()),
    {
        if !self.powered {
            return Err(HalError::NotInitialized);
        }
        Ok(())
    }

    /// Stop device discovery; the radio must be powered.
    pub fn stop_discovery(&self) -> (r: Result<(), HalError>)
        ensures
            !self.powered ==> r == Err::<(), HalError>(HalError::NotInitialized),
            self.powered ==> r == Ok::<(), HalError>(()),
    {
        if !self.powered {
            return Err(HalError::NotInitialized);
        }
        Ok(())
    }

    /// Whether the radio is powered.
    pub fn is_powered(&self) -> (r: bool)
        ensures
            r == self.powered,
    {
        self.powered
    }
}

} // verus!
