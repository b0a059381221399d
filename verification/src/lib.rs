//! Hardware and platform introspection: probes that read what CPU, GPUs,
//! disks, networks, displays, USB devices and operating system a machine
//! has, a cache that keeps what each probe found, and the start gates of
//! the sampler that streams live metrics.
//!
//! The library computes on plain values. What reads the machine hands it
//! the raw facts; every function here says in its contract what it makes
//! of them.

pub mod cache;
pub mod sampler;
pub mod snapshot;
pub mod text;
pub mod types;
pub mod utils;
