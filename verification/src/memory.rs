//! The memory provider: refreshes only the memory fields of the shared
//! system snapshot and derives the typed memory output from them.

use vstd::prelude::*;

use crate::config::{MemoryProviderConfig, ProviderKind, ThreadingType};
use crate::outputs::ProviderOutput;
use crate::snapshot::{memory_output_of_probe, MemoryProbe, SystemSnapshot};

verus! {

/// A memory provider instance, spawned from its configuration.
#[derive(Debug, Clone, Copy)]
pub struct MemoryProvider {
    pub config: MemoryProviderConfig,
}

impl MemoryProvider {
    /// Creates a memory provider from its configuration.
    pub fn new(config: MemoryProviderConfig) -> (p: MemoryProvider)
        ensures
            p.config == config,
    {
        MemoryProvider { config }
    }

    /// The runtime model of this kind: a dedicated worker thread.
    pub fn runtime_type(&self) -> (t: ThreadingType)
        ensures
            t == ProviderKind::Memory.spec_threading_type(),
    {
        ThreadingType::Sync
    }

    /// The configured refresh period in milliseconds.
    pub fn refresh_interval_ms(&self) -> (ms: u64)
        ensures
            ms == self.config.refresh_interval,
    {
        self.config.refresh_interval
    }

    /// One refresh: requests only the memory counters on the shared
    /// snapshot and produces the memory output. CPU fields refreshed by
    /// the CPU provider are left untouched.
    pub fn get_refreshed_variables(&self, sysinfo: &mut SystemSnapshot, probe: MemoryProbe) -> (out:
        ProviderOutput)
        ensures
            out@ == crate::outputs::ProviderOutputView::Memory(memory_output_of_probe(probe)),
            final(sysinfo)@.memory == Some(memory_output_of_probe(probe)),
            final(sysinfo)@.cpu == old(sysinfo)@.cpu,
    {
        let memory = sysinfo.refresh_memory(probe);
        ProviderOutput::Memory(memory)
    }
}

} // verus!
