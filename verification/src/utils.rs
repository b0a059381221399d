//! The hardware probes, one module per category.

pub mod cpu;
pub mod disks;
pub mod displays;
pub mod gpu;
pub mod gpus;
pub mod network;
pub mod platform;
pub mod sysinfo;
pub mod usb;
pub mod vulkan;
