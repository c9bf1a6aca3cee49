//! Power-policy coordination.
//!
//! Owns the global power-policy mode and its settings, refreshes the
//! component state snapshot once per tick, and pushes frequency and turbo
//! decisions back to the core control interface.  The periodic timer that
//! fires the tick lives outside the library; callers invoke [`PolicyManager::tick`]
//! with the policy manager's collaborators.

use vstd::prelude::*;

use crate::acpi::{AcpiManager, DeviceState};
use crate::cpu_hybrid::{CoreState, CoreTopology, HybridCpuDriver, CORE_COUNT};
use crate::hal::HalError;
use crate::perf::{CounterType, PmuManager};

verus! {

/// Power policy modes.
#[derive(Clone, Copy, Debug, PartialEq, Eq, Structural)]
pub enum PolicyMode {
    /// Maximum performance.
    Performance,
    /// Balance performance and power.
    Balanced,
    /// Maximize battery life.
    PowerSaver,
    /// Operator-supplied settings.
    Custom,
}

/// Power policy settings.
#[derive(Clone, Copy, Debug, PartialEq, Eq, Structural)]
pub struct PolicySettings {
    /// Current power policy mode.
    pub mode: PolicyMode,
    /// Maximum CPU frequency in MHz.
    pub cpu_max_freq: u32,
    /// Minimum CPU frequency in MHz.
    pub cpu_min_freq: u32,
    /// Whether turbo boost is enabled.
    pub turbo_enabled: bool,
    /// Performance bias (0 = performance, 15 = power saving).
    pub perf_bias: u8,
    /// Target temperature in degrees Celsius.
    pub temp_target: i32,
}

/// Last computed component power snapshot; refreshed once per tick and
/// possibly stale in between.
#[derive(Clone, Copy, Debug, PartialEq, Eq, Structural)]
pub struct ComponentState {
    /// CPU utilization in percent (mean over the topology, rounded down).
    pub cpu_util: u32,
    /// GPU utilization in percent.
    pub gpu_util: u32,
    /// Temperature in degrees Celsius.
    pub temperature: i32,
    /// Power draw in milliwatts.
    pub power_draw: u32,
}

/// The settings template that `set_mode` installs for a mode; `Custom`
/// keeps the current values and only flips the mode tag.
pub open spec fn spec_mode_settings(mode: PolicyMode, current: PolicySettings) -> PolicySettings {
    match mode {
        PolicyMode::Performance => PolicySettings {
            mode,
            cpu_max_freq: 4700,
            cpu_min_freq: 1200,
            turbo_enabled: true,
            perf_bias: 0,
            temp_target: 85,
        },
        PolicyMode::Balanced => PolicySettings {
            mode,
            cpu_max_freq: 3600,
            cpu_min_freq: 800,
            turbo_enabled: true,
            perf_bias: 7,
            temp_target: 75,
        },
        PolicyMode::PowerSaver => PolicySettings {
            mode,
            cpu_max_freq: 2400,
            cpu_min_freq: 800,
            turbo_enabled: false,
            perf_bias: 15,
            temp_target: 65,
        },
        PolicyMode::Custom => PolicySettings { mode: PolicyMode::Custom, ..current },
    }
}

/// Settings are usable when the frequency band is not inverted.
pub open spec fn spec_settings_valid(s: PolicySettings) -> bool {
    s.cpu_min_freq <= s.cpu_max_freq
}

/// The value last recorded for a counter id.
pub open spec fn spec_counter_value(pmu: PmuManager, c: u32) -> u64 {
    pmu.units@[pmu.spec_counter_index(c)].value
}

/// Whether an optional counter handle can be read.
pub open spec fn spec_counter_ok(pmu: PmuManager, oc: Option<u32>) -> bool {
    match oc {
        Some(c) => pmu.spec_has_counter(c),
        None => true,
    }
}

/// Sum of the utilization samples over the topology entries; an entry
/// whose core id has no state contributes nothing.
pub open spec fn spec_util_sum(
    states: Seq<crate::cpu_hybrid::CoreState>,
    tops: Seq<CoreTopology>,
) -> int
    decreases tops.len(),
{
    if tops.len() == 0 {
        0
    } else {
        spec_util_sum(states, tops.drop_last()) + (
        if 0 <= tops.last().core_id < states.len() {
            states[tops.last().core_id as int].utilization as int
        } else {
            0
        })
    }
}

/// The mean CPU utilization a tick computes: the per-core samples averaged
/// over the full topology, rounded down; zero while the driver is down.
pub open spec fn spec_mean_util(driver: HybridCpuDriver) -> int {
    if driver.initialized {
        spec_util_sum(driver.states@, crate::cpu_hybrid::spec_topology()) / 8
    } else {
        0
    }
}

/// The frequency a tick assigns to a core with the given utilization
/// sample, in percent: the band is walked linearly and the result clamped
/// to the band, which for a percentage is already guaranteed.
pub open spec fn spec_target_frequency(utilization: int, s: PolicySettings) -> int {
    s.cpu_min_freq + (s.cpu_max_freq - s.cpu_min_freq) * utilization / 100
}

/// Power policy manager state.
pub struct PolicyManager {
    /// Whether `init` has run.
    pub initialized: bool,
    /// Current power policy settings.
    pub settings: PolicySettings,
    /// Last computed component snapshot.
    pub component_states: ComponentState,
    /// Telemetry handle for the power-draw counter.
    pub power_counter: Option<u32>,
    /// Telemetry handle for the temperature counter.
    pub temp_counter: Option<u32>,
}

impl PolicyManager {
    /// The stored settings keep a usable frequency band.
    pub open spec fn wf(self) -> bool {
        spec_settings_valid(self.settings)
    }

    /// Build the manager in its power-on (uninitialized) state.
    pub fn new() -> (m: PolicyManager)
        ensures
            m.wf(),
            !m.initialized,
    {
        PolicyManager {
            initialized: false,
            settings: PolicySettings {
                mode: PolicyMode::Balanced,
                cpu_max_freq: 4700,
                cpu_min_freq: 800,
                turbo_enabled: true,
                perf_bias: 7,
                temp_target: 75,
            },
            component_states: ComponentState {
                cpu_util: 0,
                gpu_util: 0,
                temperature: 0,
                power_draw: 0,
            },
            power_counter: None,
            temp_counter: None,
        }
    }

    /// Initialize power policy management: enable the power-draw and
    /// temperature counters and start in Balanced mode.
    pub fn init(pmu: &mut PmuManager) -> (r: Result<PolicyManager, HalError>)
        requires
            old(pmu).wf(),
        ensures
            final(pmu).wf(),
            !old(pmu).initialized ==> r == Err::<PolicyManager, HalError>(HalError::NotInitialized)
                && *final(pmu) == *old(pmu),
            old(pmu).initialized && old(pmu).next_counter >= crate::perf::MAX_COUNTERS ==> r
                == Err::<PolicyManager, HalError>(HalError::DeviceError) && *final(pmu) == *old(
                pmu,
            ),
            old(pmu).initialized && old(pmu).next_counter + 1 == crate::perf::MAX_COUNTERS ==> r
                == Err::<PolicyManager, HalError>(HalError::DeviceError) && final(pmu).next_counter
                == old(pmu).next_counter + 1 && final(pmu).units@ == old(pmu).units@.push(
                (crate::perf::PerformanceUnit {
                    counter_id: old(pmu).next_counter,
                    counter_type: CounterType::PowerConsumption,
                    value: 0,
                    enabled: true,
                }),
            ),
            old(pmu).initialized && old(pmu).next_counter + 2 <= crate::perf::MAX_COUNTERS ==> {
                &&& final(pmu).next_counter == old(pmu).next_counter + 2
                &&& final(pmu).units@.len() == old(pmu).units@.len() + 2
                &&& match r {
                    Ok(m) => {
                        &&& m.wf()
                        &&& m.initialized
                        &&& m.settings == (PolicySettings {
                            mode: PolicyMode::Balanced,
                            cpu_max_freq: 4700,
                            cpu_min_freq: 800,
                            turbo_enabled: true,
                            perf_bias: 7,
                            temp_target: 75,
                        })
                        &&& m.component_states == (ComponentState {
                            cpu_util: 0,
                            gpu_util: 0,
                            temperature: 0,
                            power_draw: 0,
                        })
                        &&& m.power_counter == Some(old(pmu).next_counter)
                        &&& m.temp_counter == Some((old(pmu).next_counter + 1) as u32)
                        &&& spec_counter_ok(*final(pmu), m.power_counter)
                        &&& spec_counter_ok(*final(pmu), m.temp_counter)
                    },
                    Err(_) => false,
                }
            },
    {
        let power_counter = match pmu.enable_counter(CounterType::PowerConsumption) {
            Ok(c) => c,
            Err(e) => {
                return Err(e);
            },
        };
        let temp_counter = match pmu.enable_counter(CounterType::Temperature) {
            Ok(c) => c,
            Err(e) => {
                return Err(e);
            },
        };
        proof {
            let u = pmu.units@;
            assert(u[u.len() - 2].counter_id == power_counter);
            assert(u[u.len() - 1].counter_id == temp_counter);
            pmu.lemma_counter_index_is(power_counter, u.len() - 2);
            pmu.lemma_counter_index_is(temp_counter, u.len() - 1);
        }
        Ok(
            PolicyManager {
                initialized: true,
                settings: PolicySettings {
                    mode: PolicyMode::Balanced,
                    cpu_max_freq: 4700,
                    cpu_min_freq: 800,
                    turbo_enabled: true,
                    perf_bias: 7,
                    temp_target: 75,
                },
                component_states: ComponentState {
                    cpu_util: 0,
                    gpu_util: 0,
                    temperature: 0,
                    power_draw: 0,
                },
                power_counter: Some(power_counter),
                temp_counter: Some(temp_counter),
            },
        )
    }

    /// Switch the policy mode: install the mode's settings template and
    /// apply it through the core control interface (turbo toggle and
    /// performance-bias hint).  The settings are stored even when the
    /// hardware apply fails.
    pub fn set_mode(&mut self, mode: PolicyMode, driver: &mut HybridCpuDriver) -> (r: Result<
        (),
        HalError,
    >)
        requires
            old(self).wf(),
            old(driver).wf(),
        ensures
            final(self).wf(),
            final(driver).wf(),
            !old(self).initialized ==> r == Err::<(), HalError>(HalError::NotInitialized) && *final(self) == *old(self) && *final(driver) == *old(driver),
            old(self).initialized ==> {
                &&& final(self).settings == spec_mode_settings(mode, old(self).settings)
                &&& final(self).initialized
                &&& final(self).component_states == old(self).component_states
                &&& final(self).power_counter == old(self).power_counter
                &&& final(self).temp_counter == old(self).temp_counter
            },
            old(self).initialized && !old(driver).initialized ==> r == Err::<(), HalError>(
                HalError::NotInitialized,
            ) && *final(driver) == *old(driver),
            old(self).initialized && old(driver).initialized ==> {
                &&& r == Ok::<(), HalError>(())
                &&& final(driver).turbo_enabled == spec_mode_settings(
                    mode,
                    old(self).settings,
                ).turbo_enabled
                &&& final(driver).perf_bias == spec_mode_settings(mode, old(self).settings).perf_bias
                &&& final(driver).states@ == old(driver).states@
                &&& final(driver).initialized
                &&& final(driver).power_config == old(driver).power_config
            },
    {
        if !self.initialized {
            return Err(HalError::NotInitialized);
        }
        let current = self.settings;
        self.settings = match mode {
            PolicyMode::Performance => PolicySettings {
                mode,
                cpu_max_freq: 4700,
                cpu_min_freq: 1200,
                turbo_enabled: true,
                perf_bias: 0,
                temp_target: 85,
            },
            PolicyMode::Balanced => PolicySettings {
                mode,
                cpu_max_freq: 3600,
                cpu_min_freq: 800,
                turbo_enabled: true,
                perf_bias: 7,
                temp_target: 75,
            },
            PolicyMode::PowerSaver => PolicySettings {
                mode,
                cpu_max_freq: 2400,
                cpu_min_freq: 800,
                turbo_enabled: false,
                perf_bias: 15,
                temp_target: 65,
            },
            PolicyMode::Custom => PolicySettings { mode: PolicyMode::Custom, ..current },
        };
        self.apply_settings(driver)
    }

    /// Replace the settings wholesale; the mode becomes Custom.
    pub fn update_settings(&mut self, settings: PolicySettings, driver: &mut HybridCpuDriver) -> (r:
        Result<(), HalError>)
        requires
            old(self).wf(),
            old(driver).wf(),
            spec_settings_valid(settings),
        ensures
            final(self).wf(),
            final(driver).wf(),
            !old(self).initialized ==> r == Err::<(), HalError>(HalError::NotInitialized) && *final(self) == *old(self) && *final(driver) == *old(driver),
            old(self).initialized ==> {
                &&& final(self).settings == (PolicySettings { mode: PolicyMode::Custom, ..settings })
                &&& final(self).initialized
                &&& final(self).component_states == old(self).component_states
                &&& final(self).power_counter == old(self).power_counter
                &&& final(self).temp_counter == old(self).temp_counter
            },
            old(self).initialized && !old(driver).initialized ==> r == Err::<(), HalError>(
                HalError::NotInitialized,
            ) && *final(driver) == *old(driver),
            old(self).initialized && old(driver).initialized ==> {
                &&& r == Ok::<(), HalError>(())
                &&& final(driver).turbo_enabled == settings.turbo_enabled
                &&& final(driver).perf_bias == settings.perf_bias
                &&& final(driver).states@ == old(driver).states@
                &&& final(driver).initialized
                &&& final(driver).power_config == old(driver).power_config
            },
    {
        if !self.initialized {
            return Err(HalError::NotInitialized);
        }
        self.settings = PolicySettings { mode: PolicyMode::Custom, ..settings };
        self.apply_settings(driver)
    }

    /// Apply the stored settings through the core control interface.
    fn apply_settings(&mut self, driver: &mut HybridCpuDriver) -> (r: Result<(), HalError>)
        requires
            old(self).wf(),
            old(driver).wf(),
        ensures
            final(self).wf(),
            final(driver).wf(),
            *final(self) == *old(self),
            !old(driver).initialized ==> r == Err::<(), HalError>(HalError::NotInitialized)
                && *final(driver) == *old(driver),
            old(driver).initialized ==> {
                &&& r == Ok::<(), HalError>(())
                &&& final(driver).turbo_enabled == old(self).settings.turbo_enabled
                &&& final(driver).perf_bias == old(self).settings.perf_bias
                &&& final(driver).states@ == old(driver).states@
                &&& final(driver).initialized
                &&& final(driver).power_config == old(driver).power_config
            },
    {
        match driver.set_turbo_boost(self.settings.turbo_enabled) {
            Ok(_) => {},
            Err(e) => {
                return Err(e);
            },
        }
        match driver.set_perf_bias(self.settings.perf_bias) {
            Ok(_) => {},
            Err(e) => {
                return Err(e);
            },
        }
        Ok(())
    }

    /// Last computed component snapshot.
    pub fn get_component_states(&self) -> (r: Result<ComponentState, HalError>)
        ensures
            !self.initialized ==> r == Err::<ComponentState, HalError>(HalError::NotInitialized),
            self.initialized ==> r == Ok::<ComponentState, HalError>(self.component_states),
    {
        if !self.initialized {
            return Err(HalError::NotInitialized);
        }
        Ok(self.component_states)
    }
}

/// Whether one of the first `n` topology entries names this core id.
pub open spec fn spec_prefix_has_core(n: int, core_id: u8) -> bool {
    exists|t: int|
        0 <= t < n && (#[trigger] crate::cpu_hybrid::spec_topology()[t]).core_id == core_id
}

/// How a counter read through an optional handle fails, if it does.
pub open spec fn spec_read_err(pmu: PmuManager, oc: Option<u32>) -> Option<HalError> {
    match oc {
        None => None,
        Some(c) => if !pmu.initialized {
            Some(HalError::NotInitialized)
        } else if !pmu.spec_has_counter(c) {
            Some(HalError::DeviceError)
        } else {
            None
        },
    }
}

/// The component snapshot a successful refresh computes: fresh power and
/// temperature samples (when a handle exists) and the mean utilization.
pub open spec fn spec_refreshed(
    prev: ComponentState,
    pmu: PmuManager,
    power_counter: Option<u32>,
    temp_counter: Option<u32>,
    driver: HybridCpuDriver,
) -> ComponentState {
    ComponentState {
        cpu_util: spec_mean_util(driver) as u32,
        gpu_util: prev.gpu_util,
        temperature: (match temp_counter {
            Some(c) => spec_counter_value(pmu, c) as i32,
            None => prev.temperature,
        }),
        power_draw: (match power_counter {
            Some(c) => spec_counter_value(pmu, c) as u32,
            None => prev.power_draw,
        }),
    }
}

impl PolicyManager {
    /// One evaluation cycle, fired by the external periodic timer.
    ///
    /// Refreshes the component snapshot from the telemetry samples and the
    /// per-core utilization, then either emergency-throttles (turbo off,
    /// every core at the configured minimum frequency, devices to low
    /// power) when the temperature exceeds the target, or walks each core
    /// to the frequency its utilization asks for.  Per-core frequency
    /// failures do not abort the cycle; the count of them is returned.
    pub fn tick(
        &mut self,
        pmu: &PmuManager,
        driver: &mut HybridCpuDriver,
        acpi: &mut AcpiManager,
    ) -> (r: Result<u32, HalError>)
        requires
            old(self).wf(),
            pmu.wf(),
            old(driver).wf(),
            old(acpi).wf(),
        ensures
            final(self).wf(),
            final(driver).wf(),
            final(acpi).wf(),
            final(self).initialized == old(self).initialized,
            final(self).settings == old(self).settings,
            final(self).power_counter == old(self).power_counter,
            final(self).temp_counter == old(self).temp_counter,
            !old(self).initialized ==> r == Err::<u32, HalError>(HalError::NotInitialized) && *final(self) == *old(self) && *final(driver) == *old(driver) && *final(acpi) == *old(acpi),
            old(self).initialized && spec_read_err(*pmu, old(self).power_counter) is Some ==> r
                == Err::<u32, HalError>(
                spec_read_err(*pmu, old(self).power_counter).unwrap(),
            ) && *final(self) == *old(self) && *final(driver) == *old(driver) && *final(acpi)
                == *old(acpi),
            old(self).initialized && spec_read_err(*pmu, old(self).power_counter) is None
                && spec_read_err(*pmu, old(self).temp_counter) is Some ==> r == Err::<
                u32,
                HalError,
            >(spec_read_err(*pmu, old(self).temp_counter).unwrap()) && *final(self) == *old(self)
                && *final(driver) == *old(driver) && *final(acpi) == *old(acpi),
            old(self).initialized && spec_read_err(*pmu, old(self).power_counter) is None
                && spec_read_err(*pmu, old(self).temp_counter) is None ==> {
                let snap = spec_refreshed(
                    old(self).component_states,
                    *pmu,
                    old(self).power_counter,
                    old(self).temp_counter,
                    *old(driver),
                );
                let throttling = snap.temperature > old(self).settings.temp_target;
                &&& final(self).component_states == snap
                &&& (throttling && !old(driver).initialized) ==> r == Err::<u32, HalError>(
                    HalError::NotInitialized,
                ) && *final(driver) == *old(driver) && *final(acpi) == *old(acpi)
                &&& (throttling && old(driver).initialized) ==> {
                    &&& final(driver).initialized
                    &&& final(driver).turbo_enabled == false
                    &&& final(driver).power_config == old(driver).power_config
                    &&& final(driver).perf_bias == old(driver).perf_bias
                    &&& final(driver).states@.len() == old(driver).states@.len()
                    &&& forall|c: int|
                        0 <= c < final(driver).states@.len() ==> #[trigger] final(driver).states@[c]
                            == (CoreState {
                            frequency: old(self).settings.cpu_min_freq,
                            ..old(driver).states@[c]
                        })
                    &&& !old(acpi).initialized ==> r == Err::<u32, HalError>(
                        HalError::NotInitialized,
                    ) && *final(acpi) == *old(acpi)
                    &&& old(acpi).initialized ==> {
                        &&& r == Ok::<u32, HalError>(0)
                        &&& final(acpi).spec_has_device(0, 0, 0)
                        &&& final(acpi).device_states@[final(acpi).spec_device_index(0, 0, 0)].state
                            == DeviceState::D3Hot
                        &&& final(acpi).system_state == old(acpi).system_state
                    }
                }
                &&& (!throttling && !old(driver).initialized) ==> r == Ok::<u32, HalError>(0)
                    && *final(driver) == *old(driver) && *final(acpi) == *old(acpi)
                &&& (!throttling && old(driver).initialized) ==> {
                    &&& r == Ok::<u32, HalError>(0)
                    &&& *final(acpi) == *old(acpi)
                    &&& final(driver).initialized
                    &&& final(driver).turbo_enabled == old(driver).turbo_enabled
                    &&& final(driver).power_config == old(driver).power_config
                    &&& final(driver).perf_bias == old(driver).perf_bias
                    &&& final(driver).states@.len() == old(driver).states@.len()
                    &&& forall|c: int|
                        0 <= c < final(driver).states@.len() ==> #[trigger] final(driver).states@[c]
                            == (CoreState {
                            frequency: spec_target_frequency(
                                old(driver).states@[c].utilization as int,
                                old(self).settings,
                            ) as u32,
                            ..old(driver).states@[c]
                        })
                }
            },
    {
        if !self.initialized {
            return Err(HalError::NotInitialized);
        }
        // Read the telemetry counters first; a failed read leaves
        // everything untouched.
        let power_draw: Option<u64> = match self.power_counter {
            Some(c) => match pmu.read_counter(c) {
                Ok(v) => Some(v),
                Err(e) => {
                    return Err(e);
                },
            },
            None => None,
        };
        let temperature: Option<u64> = match self.temp_counter {
            Some(c) => match pmu.read_counter(c) {
                Ok(v) => Some(v),
                Err(e) => {
                    return Err(e);
                },
            },
            None => None,
        };
        // Mean utilization over the full topology.
        let topology = driver.get_topology();
        let mut total: u64 = 0;
        let mut i: usize = 0;
        while i < topology.len()
            invariant
                *driver == *old(driver),
                driver.wf(),
                topology@ == crate::cpu_hybrid::spec_topology(),
                i <= topology@.len(),
                total == if driver.initialized {
                    spec_util_sum(driver.states@, topology@.subrange(0, i as int))
                } else {
                    0
                },
                total <= 255 * i,
            decreases topology@.len() - i as int,
        {
            let entry = topology[i];
            match driver.get_core_state(entry.core_id) {
                Ok(state) => {
                    total = total + state.utilization as u64;
                },
                Err(_) => {},
            }
            proof {
                assert(topology@.subrange(0, i as int + 1).drop_last() =~= topology@.subrange(
                    0,
                    i as int,
                ));
            }
            i = i + 1;
        }
        proof {
            assert(topology@.subrange(0, topology@.len() as int) =~= topology@);
        }
        let cpu_util = (total / (topology.len() as u64)) as u32;
        match power_draw {
            Some(v) => {
                self.component_states.power_draw = #[verifier::truncate] (v as u32);
            },
            None => {},
        }
        match temperature {
            Some(v) => {
                self.component_states.temperature = #[verifier::truncate] (v as i32);
            },
            None => {},
        }
        self.component_states.cpu_util = cpu_util;
        let ghost self_snap = *self;
        let mut failures: u32 = 0;
        if self.component_states.temperature > self.settings.temp_target {
            // Emergency thermal throttle.
            match driver.set_turbo_boost(false) {
                Ok(_) => {},
                Err(e) => {
                    return Err(e);
                },
            }
            let ghost base = *driver;
            let mut k: usize = 0;
            while k < topology.len()
                invariant
                    *self == self_snap,
                    self.wf(),
                    driver.wf(),
                    driver.initialized,
                    base.initialized,
                    base.wf(),
                    topology@ == crate::cpu_hybrid::spec_topology(),
                    k <= topology@.len(),
                    failures == 0,
                    driver.initialized == base.initialized,
                    driver.turbo_enabled == base.turbo_enabled,
                    driver.power_config == base.power_config,
                    driver.perf_bias == base.perf_bias,
                    driver.states@.len() == base.states@.len(),
                    forall|c: int|
                        0 <= c < driver.states@.len() ==> #[trigger] driver.states@[c] == (
                        if spec_prefix_has_core(k as int, c as u8) {
                            CoreState { frequency: self.settings.cpu_min_freq, ..base.states@[c] }
                        } else {
                            base.states@[c]
                        }),
                decreases topology@.len() - k as int,
            {
                let entry = topology[k];
                let ghost pre_states = driver.states@;
                match driver.set_core_frequency(entry.core_id, self.settings.cpu_min_freq) {
                    Ok(_) => {},
                    Err(_) => {
                        failures = failures + 1;
                    },
                }
                proof {
                    assert forall|c: int| 0 <= c < driver.states@.len() implies #[trigger] driver.states@[c]
                        == (if spec_prefix_has_core(k as int + 1, c as u8) {
                        CoreState { frequency: self.settings.cpu_min_freq, ..base.states@[c] }
                    } else {
                        base.states@[c]
                    }) by {
                        if c == entry.core_id as int {
                            assert(spec_prefix_has_core(k as int + 1, entry.core_id));
                        } else {
                            if spec_prefix_has_core(k as int + 1, c as u8) && !spec_prefix_has_core(
                                k as int,
                                c as u8,
                            ) {
                                let t = choose|t: int|
                                    0 <= t < k as int + 1 && (
                                    #[trigger] crate::cpu_hybrid::spec_topology()[t]).core_id == c as u8;
                                assert(t == k as int);
                                assert(false);
                            }
                        }
                    }
                }
                k = k + 1;
            }
            proof {
                lemma_topology_covers_all_cores();
            }
            match acpi.set_device_power_state(0, 0, 0, DeviceState::D3Hot) {
                Ok(_) => {},
                Err(e) => {
                    return Err(e);
                },
            }
            Ok(failures)
        } else {
            // Walk each core to the frequency its utilization asks for.
            let ghost base = *driver;
            let mut k: usize = 0;
            while k < topology.len()
                invariant
                    *self == self_snap,
                    self.wf(),
                    driver.wf(),
                    base.wf(),
                    topology@ == crate::cpu_hybrid::spec_topology(),
                    k <= topology@.len(),
                    failures == 0,
                    driver.initialized == base.initialized,
                    !base.initialized ==> *driver == base,
                    driver.turbo_enabled == base.turbo_enabled,
                    driver.power_config == base.power_config,
                    driver.perf_bias == base.perf_bias,
                    driver.states@.len() == base.states@.len(),
                    base.initialized ==> forall|c: int|
                        0 <= c < driver.states@.len() ==> #[trigger] driver.states@[c] == (
                        if spec_prefix_has_core(k as int, c as u8) {
                            CoreState {
                                frequency: spec_target_frequency(
                                    base.states@[c].utilization as int,
                                    self.settings,
                                ) as u32,
                                ..base.states@[c]
                            }
                        } else {
                            base.states@[c]
                        }),
                decreases topology@.len() - k as int,
            {
                let entry = topology[k];
                match driver.get_core_state(entry.core_id) {
                    Ok(state) => {
                        let f = calculate_target_frequency(state.utilization as u32, &self.settings);
                        match driver.set_core_frequency(entry.core_id, f) {
                            Ok(_) => {},
                            Err(_) => {
                                failures = failures + 1;
                            },
                        }
                        proof {
                            assert forall|c: int| 0 <= c < driver.states@.len() implies #[trigger] driver.states@[c]
                                == (if spec_prefix_has_core(k as int + 1, c as u8) {
                                CoreState {
                                    frequency: spec_target_frequency(
                                        base.states@[c].utilization as int,
                                        self.settings,
                                    ) as u32,
                                    ..base.states@[c]
                                }
                            } else {
                                base.states@[c]
                            }) by {
                                if c == entry.core_id as int {
                                    assert(spec_prefix_has_core(k as int + 1, entry.core_id));
                                } else {
                                    if spec_prefix_has_core(k as int + 1, c as u8)
                                        && !spec_prefix_has_core(k as int, c as u8) {
                                        let t = choose|t: int|
                                            0 <= t < k as int + 1 && (
                                            #[trigger] crate::cpu_hybrid::spec_topology()[t]).core_id
                                                == c as u8;
                                        assert(t == k as int);
                                        assert(false);
                                    }
                                }
                            }
                        }
                    },
                    Err(_) => {},
                }
                k = k + 1;
            }
            proof {
                if base.initialized {
                    lemma_topology_covers_all_cores();
                }
            }
            Ok(failures)
        }
    }
}

/// Every core id below the core count appears in the topology.
pub proof fn lemma_topology_covers_all_cores()
    ensures
        forall|c: u8| c < CORE_COUNT ==> #[trigger] spec_prefix_has_core(8, c),
{
    let tops = crate::cpu_hybrid::spec_topology();
    assert(tops[0].core_id == 0);
    assert(tops[2].core_id == 1);
    assert(tops[4].core_id == 2);
    assert(tops[5].core_id == 3);
    assert(tops[6].core_id == 4);
    assert(tops[7].core_id == 5);
    assert forall|c: u8| c < CORE_COUNT implies #[trigger] spec_prefix_has_core(8, c) by {
        if c == 0 {
            assert(spec_prefix_has_core(8, 0));
        } else if c == 1 {
            assert(spec_prefix_has_core(8, 1));
        } else if c == 2 {
            assert(spec_prefix_has_core(8, 2));
        } else if c == 3 {
            assert(spec_prefix_has_core(8, 3));
        } else if c == 4 {
            assert(spec_prefix_has_core(8, 4));
        } else {
            assert(spec_prefix_has_core(8, 5));
        }
    }
}

/// The tick's frequency decision for one utilization sample, in percent.
pub fn calculate_target_frequency(utilization: u32, settings: &PolicySettings) -> (f: u32)
    requires
        spec_settings_valid(*settings),
        utilization <= 100,
    ensures
        f as int == spec_target_frequency(utilization as int, *settings),
        settings.cpu_min_freq <= f <= settings.cpu_max_freq,
{
    let range = (settings.cpu_max_freq - settings.cpu_min_freq) as u64;
    proof {
        assert(range * (utilization as u64) <= range * 100) by (nonlinear_arith)
            requires
                utilization <= 100,
        ;
    }
    let scaled = range * (utilization as u64) / 100;
    settings.cpu_min_freq + (scaled as u32)
}

} // verus!

