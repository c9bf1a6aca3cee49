//! Kernel services: message channels, the checksum journal, the bump
//! allocator and the tasklet scheduler.

pub mod vaelix_alloc;
pub mod vx_tasklet;
pub mod vxchan;
pub mod vxfs;
