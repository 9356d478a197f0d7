//! The shared system snapshot: one mutually-exclusive probe object reused
//! by the providers that read overlapping OS counters (CPU and memory).
//! Each refresh explicitly requests only the fields its provider needs;
//! fields belonging to the other provider are left untouched, so values it
//! read earlier stay valid until it refreshes them itself.

use vstd::prelude::*;

use crate::outputs::{CpuOutput, CpuOutputView, MemoryOutput, MemoryOutputView};

verus! {

/// Raw CPU counters as probed from the operating system.
#[derive(Debug, Clone)]
pub struct CpuProbe {
    /// Aggregate usage in centi-percent.
    pub usage_centi: u32,
    /// Aggregate frequency in MHz.
    pub frequency: u64,
    /// Number of logical cores.
    pub logical_core_count: usize,
    /// Number of physical cores, when the OS reports it.
    pub physical_core_count: Option<usize>,
    /// CPU vendor identifier.
    pub vendor: String,
}

/// Mathematical view of `CpuProbe`.
pub struct CpuProbeView {
    pub usage_centi: u32,
    pub frequency: u64,
    pub logical_core_count: usize,
    pub physical_core_count: Option<usize>,
    pub vendor: Seq<char>,
}

impl View for CpuProbe {
    type V = CpuProbeView;

    open spec fn view(&self) -> CpuProbeView {
        CpuProbeView {
            usage_centi: self.usage_centi,
            frequency: self.frequency,
            logical_core_count: self.logical_core_count,
            physical_core_count: self.physical_core_count,
            vendor: self.vendor@,
        }
    }
}

/// The CPU output derived from a probe: the only computed field is the
/// physical core count, which falls back to the logical count when the OS
/// does not report it.
pub open spec fn cpu_output_of_probe(p: CpuProbeView) -> CpuOutputView {
    CpuOutputView {
        usage_centi: p.usage_centi,
        frequency: p.frequency,
        logical_core_count: p.logical_core_count,
        physical_core_count: match p.physical_core_count {
            Some(n) => n,
            None => p.logical_core_count,
        },
        vendor: p.vendor,
    }
}

/// Raw memory counters as probed from the operating system, in bytes.
#[derive(Debug, Clone, PartialEq, Eq, Structural)]
pub struct MemoryProbe {
    pub free_memory: u64,
    pub used_memory: u64,
    pub total_memory: u64,
    pub free_swap: u64,
    pub used_swap: u64,
    pub total_swap: u64,
}

/// The memory output derived from a probe: the counters carried over
/// unchanged.
pub open spec fn memory_output_of_probe(p: MemoryProbe) -> MemoryOutputView {
    MemoryOutputView {
        free_memory: p.free_memory,
        used_memory: p.used_memory,
        total_memory: p.total_memory,
        free_swap: p.free_swap,
        used_swap: p.used_swap,
        total_swap: p.total_swap,
    }
}

/// The shared snapshot: the CPU fields and the memory fields last
/// refreshed on it, each absent until first refreshed.
#[derive(Debug)]
pub struct SystemSnapshot {
    cpu: Option<CpuOutput>,
    memory: Option<MemoryOutput>,
}

/// Mathematical view of `SystemSnapshot`.
pub struct SystemSnapshotView {
    pub cpu: Option<CpuOutputView>,
    pub memory: Option<MemoryOutputView>,
}

impl View for SystemSnapshot {
    type V = SystemSnapshotView;

    closed spec fn view(&self) -> SystemSnapshotView {
        SystemSnapshotView {
            cpu: match self.cpu {
                Some(c) => Some(c@),
                None => None,
            },
            memory: match self.memory {
                Some(m) => Some(m@),
                None => None,
            },
        }
    }
}

impl SystemSnapshot {
    /// Creates a fresh snapshot with no fields refreshed yet.
    pub fn new() -> (s: SystemSnapshot)
        ensures
            s@.cpu is None,
            s@.memory is None,
    {
        SystemSnapshot { cpu: None, memory: None }
    }

    /// Refreshes only the CPU fields from the given probe and returns the
    /// derived CPU output. The memory fields are left exactly as they
    /// were.
    pub fn refresh_cpu(&mut self, probe: CpuProbe) -> (out: CpuOutput)
        ensures
            out@ == cpu_output_of_probe(probe@),
            final(self)@.cpu == Some(out@),
            final(self)@.memory == old(self)@.memory,
    {
        let physical = match probe.physical_core_count {
            Some(n) => n,
            None => probe.logical_core_count,
        };
        let stored = CpuOutput {
            usage_centi: probe.usage_centi,
            frequency: probe.frequency,
            logical_core_count: probe.logical_core_count,
            physical_core_count: physical,
            vendor: probe.vendor.clone(),
        };
        self.cpu = Some(stored);
        CpuOutput {
            usage_centi: probe.usage_centi,
            frequency: probe.frequency,
            logical_core_count: probe.logical_core_count,
            physical_core_count: physical,
            vendor: probe.vendor,
        }
    }

    /// Refreshes only the memory fields from the given probe and returns
    /// the derived memory output. The CPU fields are left exactly as they
    /// were.
    pub fn refresh_memory(&mut self, probe: MemoryProbe) -> (out: MemoryOutput)
        ensures
            out@ == memory_output_of_probe(probe),
            final(self)@.memory == Some(out@),
            final(self)@.cpu == old(self)@.cpu,
    {
        let stored = MemoryOutput {
            free_memory: probe.free_memory,
            used_memory: probe.used_memory,
            total_memory: probe.total_memory,
            free_swap: probe.free_swap,
            used_swap: probe.used_swap,
            total_swap: probe.total_swap,
        };
        let out = MemoryOutput {
            free_memory: probe.free_memory,
            used_memory: probe.used_memory,
            total_memory: probe.total_memory,
            free_swap: probe.free_swap,
            used_swap: probe.used_swap,
            total_swap: probe.total_swap,
        };
        self.memory = Some(stored);
        out
    }

    /// The CPU fields as last refreshed, if ever.
    pub fn cpu_reading(&self) -> (r: &Option<CpuOutput>)
        ensures
            (match r {
                Some(c) => self@.cpu == Some(c@),
                None => self@.cpu is None,
            }),
    {
        &self.cpu
    }

    /// The memory fields as last refreshed, if ever.
    pub fn memory_reading(&self) -> (r: &Option<MemoryOutput>)
        ensures
            (match r {
                Some(m) => self@.memory == Some(m@),
                None => self@.memory is None,
            }),
    {
        &self.memory
    }
}

} // verus!
