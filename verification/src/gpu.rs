//! GPU subsystem bookkeeping: resolution, capabilities and power state.

use vstd::prelude::*;

use crate::hal::HalError;

verus! {

/// GPU capabilities.
#[derive(Clone, Copy, Debug, PartialEq, Eq)]
pub struct GpuCapabilities {
    /// Largest supported resolution.
    pub max_resolution: (u32, u32),
    /// Vulkan support.
    pub supports_vulkan: bool,
    /// OpenGL support.
    pub supports_opengl: bool,
    /// Shared memory size in bytes.
    pub memory_size: u32,
}

/// GPU power states.
#[derive(Clone, Copy, Debug, PartialEq, Eq, Structural)]
pub enum PowerState {
    /// Power saving.
    Low,
    /// Normal operation.
    Normal,
    /// High performance.
    High,
}

/// GPU subsystem state.
pub struct Gpu {
    /// Whether `init` has run.
    pub initialized: bool,
    /// Current display width in pixels.
    pub width: u32,
    /// Current display height in pixels.
    pub height: u32,
    /// The power state last requested.
    pub power_state: PowerState,
}

impl Gpu {
    /// Build the subsystem in its power-on state.
    pub fn new() -> (g: Gpu)
        ensures
            !g.initialized,
            g.width == 0,
            g.height == 0,
    {
        Gpu { initialized: false, width: 0, height: 0, power_state: PowerState::Normal }
    }

    /// Initialize the display controller at the panel's native 1920x1080.
    pub fn init(&mut self) -> (r: Result<(), HalError>)
        ensures
            r == Ok::<(), HalError>(()),
            final(self).initialized,
            final(self).width == 1920,
            final(self).height == 1080,
            final(self).power_state == old(self).power_state,
    {
        self.width = 1920;
        self.height = 1080;
        self.initialized = true;
        Ok(())
    }

    /// Shut down: drop to the low power state.
    pub fn shutdown(&mut self) -> (r: Result<(), HalError>)
        ensures
            r == Ok::<(), HalError>(()),
            !final(self).initialized,
            final(self).power_state == PowerState::Low,
            final(self).width == old(self).width,
            final(self).height == old(self).height,
    {
        self.power_state = PowerState::Low;
        self.initialized = false;
        Ok(())
    }

    /// Request a GPU power state.
    pub fn set_power_state(&mut self, state: PowerState) -> (r: Result<(), HalError>)
        ensures
            r == Ok::<(), HalError>(()),
            final(self).power_state == state,
            final(self).initialized == old(self).initialized,
            final(self).width == old(self).width,
            final(self).height == old(self).height,
    {
        self.power_state = state;
        Ok(())
    }

    /// The GPU's capabilities.
    pub fn get_capabilities(&self) -> (r: Result<GpuCapabilities, HalError>)
        ensures
            r == Ok::<GpuCapabilities, HalError>(
                GpuCapabilities {
                    max_resolution: (1920, 1080),
                    supports_vulkan: true,
                    supports_opengl: true,
                    memory_size: 536870912,
                },
            ),
    {
        Ok(
            GpuCapabilities {
                max_resolution: (1920, 1080),
                supports_vulkan: true,
                supports_opengl: true,
                memory_size: 536870912,
            },
        )
    }

    /// Change the display resolution.
    pub fn set_resolution(&mut self, width: u32, height: u32) -> (r: Result<(), HalError>)
        ensures
            r == Ok::<(), HalError>(()),
            final(self).width == width,
            final(self).height == height,
            final(self).initialized == old(self).initialized,
            final(self).power_state == old(self).power_state,
    {
        self.width = width;
        self.height = height;
        Ok(())
    }

    /// The current display resolution.
    pub fn get_resolution(&self) -> (r: (u32, u32))
        ensures
            r == (self.width, self.height),
    {
        (self.width, self.height)
    }
}

} // verus!
