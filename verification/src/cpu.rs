//! CPU subsystem bookkeeping: features and performance states.

use vstd::prelude::*;

use crate::hal::HalError;

verus! {

/// CPU feature flags.
#[derive(Clone, Copy, Debug, PartialEq, Eq, Structural)]
pub struct CpuFeatures {
    /// AVX support.
    pub has_avx: bool,
    /// AVX2 support.
    pub has_avx2: bool,
    /// SSE support.
    pub has_sse: bool,
    /// SSE2 support.
    pub has_sse2: bool,
    /// SSE3 support.
    pub has_sse3: bool,
    /// SSE4.1 support.
    pub has_sse4_1: bool,
    /// SSE4.2 support.
    pub has_sse4_2: bool,
    /// SSSE3 support.
    pub has_ssse3: bool,
    /// VMX support.
    pub has_vmx: bool,
}

/// CPU performance states.
#[derive(Clone, Copy, Debug, PartialEq, Eq, Structural)]
pub enum PerfState {
    /// Lowest clock.
    PowerSave,
    /// Dynamic scaling.
    Balanced,
    /// Highest clock.
    Performance,
}

/// CPU subsystem state.
pub struct Cpu {
    /// Whether `init` has run.
    pub initialized: bool,
    /// The performance state last requested.
    pub perf_state: PerfState,
}

impl Cpu {
    /// Build the subsystem in its power-on state.
    pub fn new() -> (c: Cpu)
        ensures
            !c.initialized,
            c.perf_state == PerfState::Balanced,
    {
        Cpu { initialized: false, perf_state: PerfState::Balanced }
    }

    /// Initialize the hybrid core clusters and power management.
    pub fn init(&mut self) -> (r: Result<(), HalError>)
        ensures
            r == Ok::<(), HalError>(()),
            final(self).initialized,
            final(self).perf_state == old(self).perf_state,
    {
        self.initialized = true;
        Ok(())
    }

    /// Shut down: drop to the power-save state.
    pub fn shutdown(&mut self) -> (r: Result<(), HalError>)
        ensures
            r == Ok::<(), HalError>(()),
            !final(self).initialized,
            final(self).perf_state == PerfState::PowerSave,
    {
        self.perf_state = PerfState::PowerSave;
        self.initialized = false;
        Ok(())
    }

    /// Request a performance state.
    pub fn set_perf_state(&mut self, state: PerfState) -> (r: Result<(), HalError>)
        ensures
            r == Ok::<(), HalError>(()),
            final(self).perf_state == state,
            final(self).initialized == old(self).initialized,
    {
        self.perf_state = state;
        Ok(())
    }

    /// The feature set of the processor.
    pub fn get_features(&self) -> (r: Result<CpuFeatures, HalError>)
        ensures
            r == Ok::<CpuFeatures, HalError>(
                CpuFeatures {
                    has_avx: true,
                    has_avx2: true,
                    has_sse: true,
                    has_sse2: true,
                    has_sse3: true,
                    has_sse4_1: true,
                    has_sse4_2: true,
                    has_ssse3: true,
                    has_vmx: true,
                },
            ),
    {
        Ok(
            CpuFeatures {
                has_avx: true,
                has_avx2: true,
                has_sse: true,
                has_sse2: true,
                has_sse3: true,
                has_sse4_1: true,
                has_sse4_2: true,
                has_ssse3: true,
                has_vmx: true,
            },
        )
    }
}

} // verus!
