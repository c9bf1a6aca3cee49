//! Network subsystem bookkeeping for the WiFi and Ethernet interfaces.

use vstd::prelude::*;

use crate::hal::HalError;

verus! {

/// Supported network interfaces.
#[derive(Clone, Copy, Debug, PartialEq, Eq, Structural)]
pub enum Interface {
    /// The wireless interface.
    WiFi,
    /// The wired interface.
    Ethernet,
}

/// Interface traffic statistics.
#[derive(Clone, Copy, Debug, PartialEq, Eq, Structural)]
pub struct InterfaceStats {
    /// Bytes received.
    pub bytes_received: u64,
    /// Bytes sent.
    pub bytes_sent: u64,
    /// Packets received.
    pub packets_received: u64,
    /// Packets sent.
    pub packets_sent: u64,
    /// Receive errors.
    pub errors_in: u32,
    /// Transmit errors.
    pub errors_out: u32,
}

/// WiFi security types.
#[derive(Clone, Copy, Debug, PartialEq, Eq, Structural)]
pub enum SecurityType {
    /// Open network, no security.
    Open,
    /// WEP.
    WEP,
    /// WPA2 Personal.
    WPA2Personal,
    /// WPA3 Personal.
    WPA3Personal,
}

/// A WiFi connection configuration.
#[derive(Clone, Copy, Debug)]
pub struct WifiConfig {
    /// Network name, zero padded.
    pub ssid: [u8; 32],
    /// Passphrase, zero padded.
    pub password: [u8; 64],
    /// Security type.
    pub security: SecurityType,
}

/// Network subsystem state.
pub struct Net {
    /// Whether the WiFi interface is up.
    pub wifi_initialized: bool,
    /// Whether the Ethernet interface is up.
    pub eth_initialized: bool,
}

impl Net {
    /// Build the subsystem in its power-on state.
    pub fn new() -> (n: Net)
        ensures
            !n.wifi_initialized,
            !n.eth_initialized,
    {
        Net { wifi_initialized: false, eth_initialized: false }
    }

    /// Bring both interfaces up.
    pub fn init(&mut self) -> (r: Result<(), HalError>)
        ensures
            r == Ok::<(), HalError>(()),
            final(self).wifi_initialized,
            final(self).eth_initialized,
    {
        self.wifi_initialized = true;
        self.eth_initialized = true;
        Ok(())
    }

    /// Bring both interfaces down.
    pub fn shutdown(&mut self) -> (r: Result<(), HalError>)
        ensures
            r == Ok::<(), HalError>(()),
            !final(self).wifi_initialized,
            !final(self).eth_initialized,
    {
        self.wifi_initialized = false;
        self.eth_initialized = false;
        Ok(())
    }

    /// Whether an interface is up.
    pub fn get_status(&self, interface: Interface) -> (r: Result<bool, HalError>)
        ensures
            r == Ok::<bool, HalError>(
                match interface {
                    Interface::WiFi => self.wifi_initialized,
                    Interface::Ethernet => self.eth_initialized,
                },
            ),
    {
        match interface {
            Interface::WiFi => Ok(self.wifi_initialized),
            Interface::Ethernet => Ok(self.eth_initialized),
        }
    }

    /// Traffic statistics for an interface; counters start at zero.
    pub fn get_stats(&self, interface: Interface) -> (r: Result<InterfaceStats, HalError>)
        ensures
            (match interface {
                Interface::WiFi => !self.wifi_initialized,
                Interface::Ethernet => !self.eth_initialized,
            }) ==> r == Err::<InterfaceStats, HalError>(HalError::NotInitialized),
            (match interface {
                Interface::WiFi => self.wifi_initialized,
                Interface::Ethernet => self.eth_initialized,
            }) ==> r == Ok::<InterfaceStats, HalError>(
                InterfaceStats {
                    bytes_received: 0,
                    bytes_sent: 0,
                    packets_received: 0,
                    packets_sent: 0,
                    errors_in: 0,
                    errors_out: 0,
                },
            ),
    {
        match interface {
            Interface::WiFi => {
                if !self.wifi_initialized {
                    return Err(HalError::NotInitialized);
                }
            },
            Interface::Ethernet => {
                if !self.eth_initialized {
                    return Err(HalError::NotInitialized);
                }
            },
        }
        Ok(
            InterfaceStats {
                bytes_received: 0,
                bytes_sent: 0,
                packets_received: 0,
                packets_sent: 0,
                errors_in: 0,
                errors_out: 0,
            },
        )
    }

    /// Configure the WiFi connection.
    pub fn configure_wifi(&self, config: WifiConfig) -> (r: Result<(), HalError>)
        ensures
            !self.wifi_initialized ==> r == Err::<(), HalError>(HalError::NotInitialized),
            self.wifi_initialized ==> r == Ok::<(), HalError>(()),
    {
        if !self.wifi_initialized {
            return Err(HalError::NotInitialized);
        }
        Ok(())
    }

    /// Enable or disable power management for an interface.
    pub fn set_power_saving(&self, interface: Interface, enable: bool) -> (r: Result<(), HalError>)
        ensures
            (match interface {
                Interface::WiFi => !self.wifi_initialized,
                Interface::Ethernet => !self.eth_initialized,
            }) ==> r == Err::<(), HalError>(HalError::NotInitialized),
            (match interface {
                Interface::WiFi => self.wifi_initialized,
                Interface::Ethernet => self.eth_initialized,
            }) ==> r == Ok::<(), HalError>(()),
    {
        match interface {
            Interface::WiFi => {
                if !self.wifi_initialized {
                    return Err(HalError::NotInitialized);
                }
            },
            Interface::Ethernet => {
                if !self.eth_initialized {
                    return Err(HalError::NotInitialized);
                }
            },
        }
        Ok(())
    }
}

} // verus!
