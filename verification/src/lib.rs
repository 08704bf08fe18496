//! Host-side supervision for a family of worker executables: a reaper that
//! collects terminated children, managers that watch one child each, a
//! supervise loop that restarts a child on exit, a loader that discovers
//! executables by filesystem pattern, and a registry in which supervised
//! plugins announce themselves exactly once.

pub mod acpi;
pub mod children;
pub mod disk;
pub mod loader;
pub mod manager;
pub mod notify;
mod pids;
pub mod reaper;
pub mod registry;
pub mod runtime;
pub mod supervise;
pub mod text;

use vstd::prelude::*;

verus! {

/// A resource record as carried by the surrounding RPC surface. The payload
/// under `spec` is an opaque document; this library carries it as its raw
/// text and never interprets it.
pub struct ResourceInstance {
    pub api: String,
    pub version: String,
    pub resource_type: String,
    pub namespace: String,
    pub id: String,
    pub spec: String,
}

} // verus!
