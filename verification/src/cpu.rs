//! The CPU provider: refreshes only the CPU fields of the shared system
//! snapshot and derives the typed CPU output from them.

use vstd::prelude::*;

use crate::config::{CpuProviderConfig, ProviderKind, ThreadingType};
use crate::outputs::ProviderOutput;
use crate::snapshot::{cpu_output_of_probe, CpuProbe, SystemSnapshot};

verus! {

/// A CPU provider instance, spawned from its configuration.
#[derive(Debug, Clone, Copy)]
pub struct CpuProvider {
    pub config: CpuProviderConfig,
}

impl CpuProvider {
    /// Creates a CPU provider from its configuration.
    pub fn new(config: CpuProviderConfig) -> (p: CpuProvider)
        ensures
            p.config == config,
    {
        CpuProvider { config }
    }

    /// The runtime model of this kind: a dedicated worker thread.
    pub fn runtime_type(&self) -> (t: ThreadingType)
        ensures
            t == ProviderKind::Cpu.spec_threading_type(),
    {
        ThreadingType::Sync
    }

    /// The configured refresh period in milliseconds.
    pub fn refresh_interval_ms(&self) -> (ms: u64)
        ensures
            ms == self.config.refresh_interval,
    {
        self.config.refresh_interval
    }

    /// One refresh: requests only the CPU counters on the shared snapshot
    /// and produces the CPU output. Memory fields refreshed by the memory
    /// provider are left untouched.
    pub fn get_refreshed_variables(&self, sysinfo: &mut SystemSnapshot, probe: CpuProbe) -> (out:
        ProviderOutput)
        ensures
            out@ == crate::outputs::ProviderOutputView::Cpu(cpu_output_of_probe(probe@)),
            final(sysinfo)@.cpu == Some(cpu_output_of_probe(probe@)),
            final(sysinfo)@.memory == old(sysinfo)@.memory,
    {
        let cpu = sysinfo.refresh_cpu(probe);
        ProviderOutput::Cpu(cpu)
    }
}

} // verus!
