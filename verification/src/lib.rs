//! Hybrid-core task scheduling and power-policy coordination for the Vaelix
//! kernel, together with the in-memory service state that surrounds them:
//! hardware-abstraction bookkeeping, desktop stores, and package integrity
//! checks.

pub mod acpi;
pub mod audio;
pub mod bluetooth;
pub mod cpu;
pub mod cpu_hybrid;
pub mod firmware;
pub mod gpu;
pub mod hal;
pub mod ipc;
pub mod kernel;
pub mod net;
pub mod perf;
pub mod policy;
pub mod runtime_fw;
pub mod sched;
pub mod storage;
pub mod vegagx;
pub mod vxanim;
pub mod vxde;
pub mod vxfont;
pub mod vxnotification;
pub mod vxp_security;
pub mod vxtheme;
pub mod vxui_toolkit;
pub mod vxwall;
pub mod vxwin;
