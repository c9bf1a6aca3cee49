//! ACPI power-management bookkeeping.
//!
//! Tracks the system sleep state and the power state requested for each
//! device address.  The firmware calls that carry these requests to the
//! platform are out of scope; the policy manager records its decisions
//! here during emergency throttling.

use vstd::prelude::*;

use crate::hal::HalError;

verus! {

/// ACPI system power states.
#[derive(Clone, Copy, Debug, PartialEq, Eq, Structural)]
pub enum SystemState {
    /// Working.
    S0,
    /// Sleeping with processor context maintained.
    S1,
    /// Sleeping with processor context lost.
    S3,
    /// Hibernation.
    S4,
    /// Soft off.
    S5,
}

/// ACPI CPU power states.
#[derive(Clone, Copy, Debug, PartialEq, Eq, Structural)]
pub enum CpuState {
    /// Operating.
    C0,
    /// Halt.
    C1,
    /// Stop clock.
    C2,
    /// Sleep.
    C3,
}

/// Device power states aligned with the PCI power-management states.
#[derive(Clone, Copy, Debug, PartialEq, Eq, Structural)]
pub enum DeviceState {
    /// Fully on.
    D0,
    /// Light sleep.
    D1,
    /// Deep sleep.
    D2,
    /// Off but still powered.
    D3Hot,
    /// Fully off.
    D3Cold,
}

/// Thermal zone information.
#[derive(Clone, Copy, Debug, PartialEq, Eq, Structural)]
pub struct ThermalZone {
    /// Current temperature in degrees Celsius.
    pub current_temp: i32,
    /// Critical trip point.
    pub critical_temp: i32,
    /// Passive cooling trip point.
    pub passive_temp: i32,
    /// Whether active cooling is engaged.
    pub active_cooling: bool,
}

/// One recorded device power request, keyed by bus/device/function.
#[derive(Clone, Copy, Debug, PartialEq, Eq, Structural)]
pub struct DevicePower {
    /// PCI bus number.
    pub bus: u8,
    /// Device number.
    pub device: u8,
    /// Function number.
    pub function: u8,
    /// Requested power state.
    pub state: DeviceState,
}

/// ACPI power-management state.
pub struct AcpiManager {
    /// Whether `init` has run.
    pub initialized: bool,
    /// Current system power state.
    pub system_state: SystemState,
    /// Last power state requested per device address.
    pub device_states: Vec<DevicePower>,
}

impl AcpiManager {
    /// Device addresses are unique.
    pub open spec fn wf(self) -> bool {
        forall|i: int, j: int|
            0 <= i < j < self.device_states@.len() ==> !((#[trigger] self.device_states@[i]).bus
                == (#[trigger] self.device_states@[j]).bus && self.device_states@[i].device
                == self.device_states@[j].device && self.device_states@[i].function
                == self.device_states@[j].function)
    }

    /// Whether a device address has a recorded power state.
    pub open spec fn spec_has_device(self, bus: u8, device: u8, function: u8) -> bool {
        exists|i: int|
            0 <= i < self.device_states@.len() && (#[trigger] self.device_states@[i]).bus == bus
                && self.device_states@[i].device == device && self.device_states@[i].function
                == function
    }

    /// The index of a device address's record.
    pub open spec fn spec_device_index(self, bus: u8, device: u8, function: u8) -> int {
        choose|i: int|
            0 <= i < self.device_states@.len() && (#[trigger] self.device_states@[i]).bus == bus
                && self.device_states@[i].device == device && self.device_states@[i].function
                == function
    }

    /// With unique device addresses, an index that matches is the chosen one.
    proof fn lemma_device_index_is(self, bus: u8, device: u8, function: u8, i: int)
        requires
            self.wf(),
            0 <= i < self.device_states@.len(),
            self.device_states@[i].bus == bus,
            self.device_states@[i].device == device,
            self.device_states@[i].function == function,
        ensures
            self.spec_has_device(bus, device, function),
            self.spec_device_index(bus, device, function) == i,
    {
        assert(self.spec_has_device(bus, device, function));
        let j = self.spec_device_index(bus, device, function);
        if j < i {
            assert(!(self.device_states@[j].bus == self.device_states@[i].bus
                && self.device_states@[j].device == self.device_states@[i].device
                && self.device_states@[j].function == self.device_states@[i].function));
        } else if j > i {
            assert(!(self.device_states@[i].bus == self.device_states@[j].bus
                && self.device_states@[i].device == self.device_states@[j].device
                && self.device_states@[i].function == self.device_states@[j].function));
        }
    }

    /// Build the manager in its power-on (uninitialized) state.
    pub fn new() -> (m: AcpiManager)
        ensures
            m.wf(),
            !m.initialized,
            m.device_states@.len() == 0,
            m.system_state == SystemState::S0,
    {
        AcpiManager { initialized: false, system_state: SystemState::S0, device_states: Vec::new() }
    }

    /// Initialize ACPI bookkeeping; the system starts working (S0).
    pub fn init(&mut self)
        requires
            old(self).wf(),
        ensures
            final(self).wf(),
            final(self).initialized,
            final(self).system_state == old(self).system_state,
            final(self).device_states@ == old(self).device_states@,
    {
        self.initialized = true;
    }

    /// Read the current system power state.
    pub fn get_system_state(&self) -> (r: Result<SystemState, HalError>)
        ensures
            !self.initialized ==> r == Err::<SystemState, HalError>(HalError::NotInitialized),
            self.initialized ==> r == Ok::<SystemState, HalError>(self.system_state),
    {
        if !self.initialized {
            return Err(HalError::NotInitialized);
        }
        Ok(self.system_state)
    }

    /// Record a system power state transition.
    pub fn set_system_state(&mut self, state: SystemState) -> (r: Result<(), HalError>)
        requires
            old(self).wf(),
        ensures
            final(self).wf(),
            !old(self).initialized ==> r == Err::<(), HalError>(HalError::NotInitialized) && *final(self) == *old(self),
            old(self).initialized ==> {
                &&& r == Ok::<(), HalError>(())
                &&& final(self).system_state == state
                &&& final(self).device_states@ == old(self).device_states@
                &&& final(self).initialized
            },
    {
        if !self.initialized {
            return Err(HalError::NotInitialized);
        }
        self.system_state = state;
        Ok(())
    }

    /// Record the power state requested for one device address; a second
    /// request for the same address replaces the first.
    pub fn set_device_power_state(
        &mut self,
        bus: u8,
        device: u8,
        function: u8,
        state: DeviceState,
    ) -> (r: Result<(), HalError>)
        requires
            old(self).wf(),
        ensures
            final(self).wf(),
            !old(self).initialized ==> r == Err::<(), HalError>(HalError::NotInitialized) && *final(self) == *old(self),
            old(self).initialized ==> {
                &&& r == Ok::<(), HalError>(())
                &&& final(self).initialized
                &&& final(self).system_state == old(self).system_state
                &&& final(self).spec_has_device(bus, device, function)
                &&& final(self).device_states@[final(self).spec_device_index(bus, device, function)]
                    == (DevicePower { bus, device, function, state })
                &&& old(self).spec_has_device(bus, device, function) ==> final(self).device_states@
                    == old(self).device_states@.update(
                    old(self).spec_device_index(bus, device, function),
                    (DevicePower { bus, device, function, state }),
                )
                &&& !old(self).spec_has_device(bus, device, function) ==> final(self).device_states@ == old(self).device_states@.push(
                    (DevicePower { bus, device, function, state }),
                )
            },
    {
        if !self.initialized {
            return Err(HalError::NotInitialized);
        }
        let mut i: usize = 0;
        while i < self.device_states.len()
            invariant
                *self == *old(self),
                old(self).wf(),
                old(self).initialized,
                i <= self.device_states@.len(),
                forall|k: int|
                    0 <= k < i as int ==> !((#[trigger] self.device_states@[k]).bus == bus
                        && self.device_states@[k].device == device
                        && self.device_states@[k].function == function),
            decreases self.device_states@.len() - i as int,
        {
            let cur = self.device_states[i];
            if cur.bus == bus && cur.device == device && cur.function == function {
                let entry = DevicePower { bus, device, function, state };
                let ghost pre_mgr = *self;
                proof {
                    pre_mgr.lemma_device_index_is(bus, device, function, i as int);
                }
                self.device_states.set(i, entry);
                proof {
                    let pre = pre_mgr.device_states@;
                    assert(cur == pre[i as int]);
                    assert(self.device_states@ == pre.update(i as int, entry));
                    assert(self.device_states@[i as int] == entry);
                    assert forall|a: int, b: int|
                        0 <= a < b < self.device_states@.len() implies !((
                    self.device_states@[a]).bus == (self.device_states@[b]).bus
                        && self.device_states@[a].device == self.device_states@[b].device
                        && self.device_states@[a].function
                        == self.device_states@[b].function) by {
                        if a == i as int {
                            assert(self.device_states@[b] == pre[b]);
                            assert(!(pre[a].bus == pre[b].bus && pre[a].device == pre[b].device
                                && pre[a].function == pre[b].function));
                        } else if b == i as int {
                            assert(self.device_states@[a] == pre[a]);
                            assert(!(pre[a].bus == pre[b].bus && pre[a].device == pre[b].device
                                && pre[a].function == pre[b].function));
                        } else {
                            assert(self.device_states@[a] == pre[a]);
                            assert(self.device_states@[b] == pre[b]);
                        }
                    }
                    assert(self.wf());
                    self.lemma_device_index_is(bus, device, function, i as int);
                }
                return Ok(());
            }
            i = i + 1;
        }
        self.device_states.push(DevicePower { bus, device, function, state });
        proof {
            let n = self.device_states@.len() - 1;
            assert(self.wf());
            self.lemma_device_index_is(bus, device, function, n);
        }
        Ok(())
    }

    /// Look up the power state recorded for a device address.
    pub fn get_device_power_state(&self, bus: u8, device: u8, function: u8) -> (r: Option<
        DeviceState,
    >)
        requires
            self.wf(),
        ensures
            self.spec_has_device(bus, device, function) ==> r == Some(
                self.device_states@[self.spec_device_index(bus, device, function)].state,
            ),
            !self.spec_has_device(bus, device, function) ==> r == None::<DeviceState>,
    {
        let mut i: usize = 0;
        while i < self.device_states.len()
            invariant
                self.wf(),
                i <= self.device_states@.len(),
                forall|k: int|
                    0 <= k < i as int ==> !((#[trigger] self.device_states@[k]).bus == bus
                        && self.device_states@[k].device == device
                        && self.device_states@[k].function == function),
            decreases self.device_states@.len() - i as int,
        {
            let cur = self.device_states[i];
            if cur.bus == bus && cur.device == device && cur.function == function {
                proof {
                    self.lemma_device_index_is(bus, device, function, i as int);
                }
                return Some(cur.state);
            }
            i = i + 1;
        }
        None
    }
}

} // verus!
