//! Provider runtime: a verified core for periodically refreshed system
//! telemetry (CPU, memory, disk, IP geolocation, weather) shared across
//! multiple subscribers.
//!
//! The library models the supervising manager (one running provider per
//! configuration fingerprint, created on first subscribe and torn down on
//! last unsubscribe), the per-provider interval scheduler (immediate first
//! refresh, skipped missed ticks, cooperative stop), de-duplication of
//! identical emissions, and the kind-specific refresh logic that can be
//! stated over plain values. The surrounding process (threads, async tasks,
//! HTTP and OS probes) drives these state machines and performs the I/O.

pub mod config;
pub mod cpu;
pub mod disk;
pub mod errors;
pub mod geo;
pub mod ip;
pub mod manager;
pub mod memory;
pub mod outputs;
pub mod scheduler;
pub mod snapshot;
pub mod units;
pub mod weather;
