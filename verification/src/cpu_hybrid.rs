//! Core control interface for the hybrid (P-core / E-core) CPU.
//!
//! Enumerates the fixed Alder Lake topology (2 performance cores with two
//! threads each, 4 efficiency cores) and tracks per-core frequency, turbo
//! and utilization state.  The machine-specific register writes of the
//! concrete driver are out of scope here; this type is the bookkeeping that
//! the scheduler and the policy manager program against.

use vstd::prelude::*;

use crate::hal::HalError;

verus! {

/// CPU core types of the hybrid architecture.
#[derive(Clone, Copy, Debug, PartialEq, Eq, Structural)]
pub enum CoreType {
    /// Performance core.
    Performance,
    /// Efficiency core.
    Efficiency,
}

/// A snapshot of one core's state.
#[derive(Clone, Copy, Debug, PartialEq, Eq, Structural)]
pub struct CoreState {
    /// Whether the core is enabled.
    pub enabled: bool,
    /// Frequency in MHz.
    pub frequency: u32,
    /// Temperature in degrees Celsius.
    pub temperature: i32,
    /// Utilization in percent (0-100).
    pub utilization: u8,
}

/// One entry of the core topology.
#[derive(Clone, Copy, Debug, PartialEq, Eq, Structural)]
pub struct CoreTopology {
    /// Core type.
    pub core_type: CoreType,
    /// Core ID.
    pub core_id: u8,
    /// Thread ID.
    pub thread_id: u8,
}

/// CPU power limit configuration.
#[derive(Clone, Copy, Debug, PartialEq, Eq, Structural)]
pub struct PowerConfig {
    /// Minimum frequency in MHz.
    pub min_freq: u32,
    /// Maximum frequency in MHz.
    pub max_freq: u32,
    /// Whether turbo boost is enabled.
    pub turbo_enabled: bool,
}

/// Number of distinct cores (2 performance + 4 efficiency).
pub const CORE_COUNT: u8 = 6;

/// The fixed topology: each performance core appears once per thread,
/// efficiency cores are single-threaded.
pub open spec fn spec_topology() -> Seq<CoreTopology> {
    seq![
        (CoreTopology { core_type: CoreType::Performance, core_id: 0, thread_id: 0 }),
        (CoreTopology { core_type: CoreType::Performance, core_id: 0, thread_id: 1 }),
        (CoreTopology { core_type: CoreType::Performance, core_id: 1, thread_id: 2 }),
        (CoreTopology { core_type: CoreType::Performance, core_id: 1, thread_id: 3 }),
        (CoreTopology { core_type: CoreType::Efficiency, core_id: 2, thread_id: 4 }),
        (CoreTopology { core_type: CoreType::Efficiency, core_id: 3, thread_id: 5 }),
        (CoreTopology { core_type: CoreType::Efficiency, core_id: 4, thread_id: 6 }),
        (CoreTopology { core_type: CoreType::Efficiency, core_id: 5, thread_id: 7 }),
    ]
}

/// The state every core starts in after `init`.
pub open spec fn spec_reset_core_state() -> CoreState {
    CoreState { enabled: true, frequency: 2800, temperature: 45, utilization: 50 }
}

/// Bookkeeping for the hybrid CPU: per-core state plus the chip-wide
/// turbo, power-limit and performance-bias settings.
pub struct HybridCpuDriver {
    /// Whether `init` has run.
    pub initialized: bool,
    /// Per-core state, indexed by core id (0-5).
    pub states: Vec<CoreState>,
    /// Whether turbo boost is currently enabled.
    pub turbo_enabled: bool,
    /// Current power limit configuration.
    pub power_config: PowerConfig,
    /// Performance/energy bias hint (0 = performance, 15 = power saving).
    pub perf_bias: u8,
}

impl HybridCpuDriver {
    /// All per-core state is present and utilization stays a percentage.
    pub open spec fn wf(self) -> bool {
        &&& self.initialized ==> self.states@.len() == CORE_COUNT as int
        &&& forall|i: int|
            0 <= i < self.states@.len() ==> (#[trigger] self.states@[i]).utilization <= 100
    }

    /// Initialize the driver: enable all cores in their reset state.
    /// A second call is a no-op.
    pub fn init(&mut self)
        requires
            old(self).wf(),
        ensures
            final(self).wf(),
            final(self).initialized,
            !old(self).initialized ==> final(self).states@ == Seq::new(
                CORE_COUNT as nat,
                |i: int| spec_reset_core_state(),
            ),
            !old(self).initialized ==> final(self).turbo_enabled,
            !old(self).initialized ==> final(self).power_config == (PowerConfig {
                min_freq: 800,
                max_freq: 4700,
                turbo_enabled: true,
            }),
            old(self).initialized ==> *final(self) == *old(self),
    {
        if self.initialized {
            return;
        }
        let mut states: Vec<CoreState> = Vec::new();
        let mut i: u8 = 0;
        while i < CORE_COUNT
            invariant
                i <= CORE_COUNT,
                states@.len() == i as int,
                forall|j: int| 0 <= j < i as int ==> states@[j] == spec_reset_core_state(),
            decreases CORE_COUNT - i,
        {
            states.push(CoreState { enabled: true, frequency: 2800, temperature: 45, utilization: 50 });
            i = i + 1;
        }
        self.states = states;
        self.turbo_enabled = true;
        self.power_config = PowerConfig { min_freq: 800, max_freq: 4700, turbo_enabled: true };
        self.perf_bias = 0;
        self.initialized = true;
        proof {
            assert(self.states@ =~= Seq::new(CORE_COUNT as nat, |i: int| spec_reset_core_state()));
        }
    }

    /// Return the CPU topology.  The topology is fixed by the hardware and
    /// does not depend on the driver state.
    pub fn get_topology(&self) -> (r: Vec<CoreTopology>)
        ensures
            r@ == spec_topology(),
    {
        let mut topology: Vec<CoreTopology> = Vec::new();
        topology.push(CoreTopology { core_type: CoreType::Performance, core_id: 0, thread_id: 0 });
        topology.push(CoreTopology { core_type: CoreType::Performance, core_id: 0, thread_id: 1 });
        topology.push(CoreTopology { core_type: CoreType::Performance, core_id: 1, thread_id: 2 });
        topology.push(CoreTopology { core_type: CoreType::Performance, core_id: 1, thread_id: 3 });
        topology.push(CoreTopology { core_type: CoreType::Efficiency, core_id: 2, thread_id: 4 });
        topology.push(CoreTopology { core_type: CoreType::Efficiency, core_id: 3, thread_id: 5 });
        topology.push(CoreTopology { core_type: CoreType::Efficiency, core_id: 4, thread_id: 6 });
        topology.push(CoreTopology { core_type: CoreType::Efficiency, core_id: 5, thread_id: 7 });
        proof {
            assert(topology@ =~= spec_topology());
        }
        topology
    }

    /// Read one core's state snapshot.
    pub fn get_core_state(&self, core_id: u8) -> (r: Result<CoreState, HalError>)
        requires
            self.wf(),
        ensures
            !self.initialized ==> r == Err::<CoreState, HalError>(HalError::NotInitialized),
            self.initialized && core_id >= CORE_COUNT ==> r == Err::<CoreState, HalError>(
                HalError::CoreNotFound,
            ),
            self.initialized && core_id < CORE_COUNT ==> r == Ok::<CoreState, HalError>(
                self.states@[core_id as int],
            ),
    {
        if !self.initialized {
            return Err(HalError::NotInitialized);
        }
        if core_id >= CORE_COUNT {
            return Err(HalError::CoreNotFound);
        }
        Ok(self.states[core_id as usize])
    }

    /// Set one core's frequency in MHz.
    pub fn set_core_frequency(&mut self, core_id: u8, frequency: u32) -> (r: Result<(), HalError>)
        requires
            old(self).wf(),
        ensures
            final(self).wf(),
            !old(self).initialized ==> r == Err::<(), HalError>(HalError::NotInitialized) && *final(self) == *old(self),
            old(self).initialized && core_id >= CORE_COUNT ==> r == Err::<(), HalError>(
                HalError::CoreNotFound,
            ) && *final(self) == *old(self),
            old(self).initialized && core_id < CORE_COUNT ==> {
                &&& r == Ok::<(), HalError>(())
                &&& final(self).states@ == old(self).states@.update(
                    core_id as int,
                    (CoreState { frequency, ..old(self).states@[core_id as int] }),
                )
                &&& final(self).initialized == old(self).initialized
                &&& final(self).turbo_enabled == old(self).turbo_enabled
                &&& final(self).power_config == old(self).power_config
                &&& final(self).perf_bias == old(self).perf_bias
            },
    {
        if !self.initialized {
            return Err(HalError::NotInitialized);
        }
        if core_id >= CORE_COUNT {
            return Err(HalError::CoreNotFound);
        }
        let current = self.states[core_id as usize];
        self.states.set(core_id as usize, CoreState { frequency, ..current });
        Ok(())
    }

    /// Enable or disable turbo boost.
    pub fn set_turbo_boost(&mut self, enabled: bool) -> (r: Result<(), HalError>)
        requires
            old(self).wf(),
        ensures
            final(self).wf(),
            !old(self).initialized ==> r == Err::<(), HalError>(HalError::NotInitialized) && *final(self) == *old(self),
            old(self).initialized ==> {
                &&& r == Ok::<(), HalError>(())
                &&& final(self).turbo_enabled == enabled
                &&& final(self).states@ == old(self).states@
                &&& final(self).initialized == old(self).initialized
                &&& final(self).power_config == old(self).power_config
                &&& final(self).perf_bias == old(self).perf_bias
            },
    {
        if !self.initialized {
            return Err(HalError::NotInitialized);
        }
        self.turbo_enabled = enabled;
        Ok(())
    }

    /// Configure the power limits.
    pub fn set_power_config(&mut self, config: PowerConfig) -> (r: Result<(), HalError>)
        requires
            old(self).wf(),
        ensures
            final(self).wf(),
            !old(self).initialized ==> r == Err::<(), HalError>(HalError::NotInitialized) && *final(self) == *old(self),
            old(self).initialized ==> {
                &&& r == Ok::<(), HalError>(())
                &&& final(self).power_config == config
                &&& final(self).states@ == old(self).states@
                &&& final(self).initialized == old(self).initialized
                &&& final(self).turbo_enabled == old(self).turbo_enabled
                &&& final(self).perf_bias == old(self).perf_bias
            },
    {
        if !self.initialized {
            return Err(HalError::NotInitialized);
        }
        self.power_config = config;
        Ok(())
    }

    /// Set the performance/energy bias hint.
    pub fn set_perf_bias(&mut self, bias: u8) -> (r: Result<(), HalError>)
        requires
            old(self).wf(),
        ensures
            final(self).wf(),
            !old(self).initialized ==> r == Err::<(), HalError>(HalError::NotInitialized) && *final(self) == *old(self),
            old(self).initialized ==> {
                &&& r == Ok::<(), HalError>(())
                &&& final(self).perf_bias == bias
                &&& final(self).states@ == old(self).states@
                &&& final(self).initialized == old(self).initialized
                &&& final(self).turbo_enabled == old(self).turbo_enabled
                &&& final(self).power_config == old(self).power_config
            },
    {
        if !self.initialized {
            return Err(HalError::NotInitialized);
        }
        self.perf_bias = bias;
        Ok(())
    }

    /// Record a fresh utilization sample for one core, as a percentage.
    /// The measurement itself comes from outside the driver.
    pub fn set_core_utilization(&mut self, core_id: u8, utilization: u8) -> (r: Result<
        (),
        HalError,
    >)
        requires
            old(self).wf(),
            utilization <= 100,
        ensures
            final(self).wf(),
            !old(self).initialized ==> r == Err::<(), HalError>(HalError::NotInitialized) && *final(self) == *old(self),
            old(self).initialized && core_id >= CORE_COUNT ==> r == Err::<(), HalError>(
                HalError::CoreNotFound,
            ) && *final(self) == *old(self),
            old(self).initialized && core_id < CORE_COUNT ==> {
                &&& r == Ok::<(), HalError>(())
                &&& final(self).states@ == old(self).states@.update(
                    core_id as int,
                    (CoreState { utilization, ..old(self).states@[core_id as int] }),
                )
                &&& final(self).initialized == old(self).initialized
                &&& final(self).turbo_enabled == old(self).turbo_enabled
                &&& final(self).power_config == old(self).power_config
                &&& final(self).perf_bias == old(self).perf_bias
            },
    {
        if !self.initialized {
            return Err(HalError::NotInitialized);
        }
        if core_id >= CORE_COUNT {
            return Err(HalError::CoreNotFound);
        }
        let current = self.states[core_id as usize];
        self.states.set(core_id as usize, CoreState { utilization, ..current });
        Ok(())
    }
}

/// Build the driver in its power-on (uninitialized) state.
pub fn driver() -> (d: HybridCpuDriver)
    ensures
        d.wf(),
        !d.initialized,
{
    HybridCpuDriver {
        initialized: false,
        states: Vec::new(),
        turbo_enabled: false,
        power_config: PowerConfig { min_freq: 0, max_freq: 0, turbo_enabled: false },
        perf_bias: 0,
    }
}

} // verus!
