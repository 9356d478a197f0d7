//! Error taxonomy of the provider runtime.
//!
//! `ManagerError` variants cross the manager boundary to the caller:
//! a malformed configuration, a loop that could not be started, or a
//! `destroy`/lookup that references an unknown fingerprint or subscriber.
//! `RefreshError` is the transient, kind-specific failure inside one tick;
//! it never crosses the manager boundary: the previous output is retained
//! and the loop ticks again on schedule.

use vstd::prelude::*;

verus! {

/// An error reported to the caller of the provider manager.
#[derive(Clone, Copy, Debug, PartialEq, Eq, Structural)]
pub enum ManagerError {
    /// The configuration is malformed for its declared kind; rejected at
    /// creation, before any loop is spawned.
    ConfigError,
    /// The underlying runtime could not start the provider loop; the
    /// registration is rolled back and the caller may retry.
    SpawnError,
    /// A `destroy` or lookup referenced a fingerprint with no running
    /// instance, or a subscriber that was never registered to it.
    NotFoundError,
}

/// A transient failure inside one refresh tick. It is recovered locally:
/// the previous output is retained and no emission takes place.
#[derive(Clone, Copy, Debug, PartialEq, Eq, Structural)]
pub enum RefreshError {
    /// A location string did not parse as a pair of decimal coordinates.
    MalformedCoordinates,
    /// An outbound lookup (network or OS probe) did not produce a usable
    /// result this tick.
    Unavailable,
}

} // verus!
