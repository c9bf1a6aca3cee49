//! Performance-monitoring bookkeeping.
//!
//! Tracks which hardware counters are enabled and the sample last recorded
//! for each.  The machine-specific counter reads happen outside the
//! library; callers hand fresh samples to [`PmuManager::record_sample`] and the
//! rest of the system reads them back through [`PmuManager::read_counter`].

use vstd::prelude::*;

use crate::hal::HalError;

verus! {

/// Performance counter kinds.
#[derive(Clone, Copy, Debug, PartialEq, Eq, Structural)]
pub enum CounterType {
    /// Retired instructions.
    Instructions,
    /// Core cycles.
    Cycles,
    /// Branch mispredictions.
    BranchMisses,
    /// Cache misses.
    CacheMisses,
    /// Power draw in milliwatts.
    PowerConsumption,
    /// Temperature in degrees Celsius.
    Temperature,
}

/// One enabled performance counter.
#[derive(Clone, Copy, Debug, PartialEq, Eq, Structural)]
pub struct PerformanceUnit {
    /// Counter ID.
    pub counter_id: u32,
    /// What the counter measures.
    pub counter_type: CounterType,
    /// Last recorded sample.
    pub value: u64,
    /// Whether the counter is enabled.
    pub enabled: bool,
}

/// PMU configuration.
#[derive(Clone, Copy, Debug, PartialEq, Eq, Structural)]
pub struct PmuConfig {
    /// Sample period.
    pub sample_period: u64,
    /// Interrupt threshold.
    pub interrupt_threshold: u64,
    /// Counter mask.
    pub counter_mask: u64,
}

/// Number of general-purpose counters the unit exposes.
pub const MAX_COUNTERS: u32 = 4;

/// Performance-monitoring unit state.
pub struct PmuManager {
    /// Whether `init` has run.
    pub initialized: bool,
    /// Next counter id to hand out; ids are never reused.
    pub next_counter: u32,
    /// The enabled counters.
    pub units: Vec<PerformanceUnit>,
    /// PMU configuration.
    pub config: PmuConfig,
}

impl PmuManager {
    /// Counter ids are unique and below `next_counter`.
    pub open spec fn wf(self) -> bool {
        &&& self.next_counter <= MAX_COUNTERS
        &&& forall|i: int|
            0 <= i < self.units@.len() ==> (#[trigger] self.units@[i]).counter_id
                < self.next_counter
        &&& forall|i: int, j: int|
            0 <= i < j < self.units@.len() ==> (#[trigger] self.units@[i]).counter_id != (
            #[trigger] self.units@[j]).counter_id
    }

    /// Whether some enabled unit carries this counter id.
    pub open spec fn spec_has_counter(self, counter_id: u32) -> bool {
        exists|i: int|
            0 <= i < self.units@.len() && (#[trigger] self.units@[i]).counter_id == counter_id
    }

    /// The unit index that carries this counter id.
    pub open spec fn spec_counter_index(self, counter_id: u32) -> int {
        choose|i: int|
            0 <= i < self.units@.len() && (#[trigger] self.units@[i]).counter_id == counter_id
    }

    /// Build the PMU in its power-on (uninitialized) state.
    pub fn new() -> (m: PmuManager)
        ensures
            m.wf(),
            !m.initialized,
            m.units@.len() == 0,
            m.next_counter == 0,
    {
        PmuManager {
            initialized: false,
            next_counter: 0,
            units: Vec::new(),
            config: PmuConfig { sample_period: 0, interrupt_threshold: 0, counter_mask: 0 },
        }
    }

    /// Initialize performance monitoring.  A second call is a no-op.
    pub fn init(&mut self)
        requires
            old(self).wf(),
        ensures
            final(self).wf(),
            final(self).initialized,
            !old(self).initialized ==> final(self).units@ == old(self).units@ && final(self).next_counter == old(self).next_counter && final(self).config == (PmuConfig {
                sample_period: 10000,
                interrupt_threshold: 1000,
                counter_mask: 0,
            }),
            old(self).initialized ==> *final(self) == *old(self),
    {
        if self.initialized {
            return;
        }
        self.config = PmuConfig { sample_period: 10000, interrupt_threshold: 1000, counter_mask: 0 };
        self.initialized = true;
    }

    /// Enable a performance counter of the given kind and hand back its id.
    /// Fails with `DeviceError` once all hardware counters are taken.
    pub fn enable_counter(&mut self, counter_type: CounterType) -> (r: Result<u32, HalError>)
        requires
            old(self).wf(),
        ensures
            final(self).wf(),
            !old(self).initialized ==> r == Err::<u32, HalError>(HalError::NotInitialized) && *final(self) == *old(self),
            old(self).initialized && old(self).next_counter >= MAX_COUNTERS ==> r == Err::<
                u32,
                HalError,
            >(HalError::DeviceError) && *final(self) == *old(self),
            old(self).initialized && old(self).next_counter < MAX_COUNTERS ==> {
                &&& r == Ok::<u32, HalError>(old(self).next_counter)
                &&& final(self).units@ == old(self).units@.push(
                    (PerformanceUnit {
                        counter_id: old(self).next_counter,
                        counter_type,
                        value: 0,
                        enabled: true,
                    }),
                )
                &&& final(self).next_counter == old(self).next_counter + 1
                &&& final(self).initialized
                &&& final(self).config == old(self).config
            },
    {
        if !self.initialized {
            return Err(HalError::NotInitialized);
        }
        if self.next_counter >= MAX_COUNTERS {
            return Err(HalError::DeviceError);
        }
        let counter_id = self.next_counter;
        self.next_counter = self.next_counter + 1;
        self.units.push(PerformanceUnit { counter_id, counter_type, value: 0, enabled: true });
        Ok(counter_id)
    }

    /// With unique counter ids, an index that matches is the chosen one.
    pub proof fn lemma_counter_index_is(self, counter_id: u32, i: int)
        requires
            self.wf(),
            0 <= i < self.units@.len(),
            self.units@[i].counter_id == counter_id,
        ensures
            self.spec_has_counter(counter_id),
            self.spec_counter_index(counter_id) == i,
    {
        assert(self.spec_has_counter(counter_id));
        let j = self.spec_counter_index(counter_id);
        if j < i {
            assert(self.units@[j].counter_id != self.units@[i].counter_id);
        } else if j > i {
            assert(self.units@[i].counter_id != self.units@[j].counter_id);
        }
    }

    /// Find the unit that carries a counter id.
    fn find_unit(&self, counter_id: u32) -> (r: Option<usize>)
        requires
            self.wf(),
        ensures
            match r {
                Some(i) => i < self.units@.len() && self.units@[i as int].counter_id == counter_id
                    && self.spec_has_counter(counter_id) && self.spec_counter_index(counter_id)
                    == i as int,
                None => !self.spec_has_counter(counter_id),
            },
    {
        let mut i: usize = 0;
        while i < self.units.len()
            invariant
                self.wf(),
                i <= self.units@.len(),
                forall|k: int| 0 <= k < i as int ==> (#[trigger] self.units@[k]).counter_id != counter_id,
            decreases self.units@.len() - i as int,
        {
            if self.units[i].counter_id == counter_id {
                proof {
                    self.lemma_counter_index_is(counter_id, i as int);
                }
                return Some(i);
            }
            i = i + 1;
        }
        None
    }

    /// Read the last recorded sample of a counter.  An unknown id yields
    /// `DeviceError`.
    pub fn read_counter(&self, counter_id: u32) -> (r: Result<u64, HalError>)
        requires
            self.wf(),
        ensures
            !self.initialized ==> r == Err::<u64, HalError>(HalError::NotInitialized),
            self.initialized && !self.spec_has_counter(counter_id) ==> r == Err::<u64, HalError>(
                HalError::DeviceError,
            ),
            self.initialized && self.spec_has_counter(counter_id) ==> r == Ok::<u64, HalError>(
                self.units@[self.spec_counter_index(counter_id)].value,
            ),
    {
        if !self.initialized {
            return Err(HalError::NotInitialized);
        }
        match self.find_unit(counter_id) {
            Some(i) => Ok(self.units[i].value),
            None => Err(HalError::DeviceError),
        }
    }

    /// Record a fresh hardware sample for a counter.  The measurement
    /// itself comes from outside the library.
    pub fn record_sample(&mut self, counter_id: u32, value: u64) -> (r: Result<(), HalError>)
        requires
            old(self).wf(),
        ensures
            final(self).wf(),
            !old(self).initialized ==> r == Err::<(), HalError>(HalError::NotInitialized) && *final(self) == *old(self),
            old(self).initialized && !old(self).spec_has_counter(counter_id) ==> r == Err::<
                (),
                HalError,
            >(HalError::DeviceError) && *final(self) == *old(self),
            old(self).initialized && old(self).spec_has_counter(counter_id) ==> {
                &&& r == Ok::<(), HalError>(())
                &&& final(self).units@ == old(self).units@.update(
                    old(self).spec_counter_index(counter_id),
                    (PerformanceUnit {
                        value,
                        ..old(self).units@[old(self).spec_counter_index(counter_id)]
                    }),
                )
                &&& final(self).initialized == old(self).initialized
                &&& final(self).next_counter == old(self).next_counter
                &&& final(self).config == old(self).config
            },
    {
        if !self.initialized {
            return Err(HalError::NotInitialized);
        }
        match self.find_unit(counter_id) {
            Some(i) => {
                let unit = self.units[i];
                self.units.set(i, PerformanceUnit { value, ..unit });
                Ok(())
            },
            None => Err(HalError::DeviceError),
        }
    }

    /// Reset a counter's sample to zero.
    pub fn reset_counter(&mut self, counter_id: u32) -> (r: Result<(), HalError>)
        requires
            old(self).wf(),
        ensures
            final(self).wf(),
            !old(self).initialized ==> r == Err::<(), HalError>(HalError::NotInitialized) && *final(self) == *old(self),
            old(self).initialized && !old(self).spec_has_counter(counter_id) ==> r == Err::<
                (),
                HalError,
            >(HalError::DeviceError) && *final(self) == *old(self),
            old(self).initialized && old(self).spec_has_counter(counter_id) ==> {
                &&& r == Ok::<(), HalError>(())
                &&& final(self).units@ == old(self).units@.update(
                    old(self).spec_counter_index(counter_id),
                    (PerformanceUnit {
                        value: 0,
                        ..old(self).units@[old(self).spec_counter_index(counter_id)]
                    }),
                )
                &&& final(self).initialized == old(self).initialized
                &&& final(self).next_counter == old(self).next_counter
                &&& final(self).config == old(self).config
            },
    {
        if !self.initialized {
            return Err(HalError::NotInitialized);
        }
        match self.find_unit(counter_id) {
            Some(i) => {
                let unit = self.units[i];
                self.units.set(i, PerformanceUnit { value: 0, ..unit });
                Ok(())
            },
            None => Err(HalError::DeviceError),
        }
    }

    /// Disable a counter and drop its bookkeeping.  Its id is not reused.
    pub fn disable_counter(&mut self, counter_id: u32) -> (r: Result<(), HalError>)
        requires
            old(self).wf(),
        ensures
            final(self).wf(),
            !old(self).initialized ==> r == Err::<(), HalError>(HalError::NotInitialized) && *final(self) == *old(self),
            old(self).initialized && !old(self).spec_has_counter(counter_id) ==> r == Err::<
                (),
                HalError,
            >(HalError::DeviceError) && *final(self) == *old(self),
            old(self).initialized && old(self).spec_has_counter(counter_id) ==> {
                &&& r == Ok::<(), HalError>(())
                &&& final(self).units@ == old(self).units@.remove(
                    old(self).spec_counter_index(counter_id),
                )
                &&& final(self).initialized == old(self).initialized
                &&& final(self).next_counter == old(self).next_counter
                &&& final(self).config == old(self).config
            },
    {
        if !self.initialized {
            return Err(HalError::NotInitialized);
        }
        match self.find_unit(counter_id) {
            Some(i) => {
                self.units.remove(i);
                Ok(())
            },
            None => Err(HalError::DeviceError),
        }
    }
}

} // verus!
