//! The disk provider: turns raw per-disk counters into the typed disk
//! output, with each space figure scaled to decimal and binary units.

use vstd::prelude::*;

use crate::config::{DiskProviderConfig, ProviderKind, ThreadingType};
use crate::outputs::{Disk, DiskOutput, DiskSizeMeasureView, DiskView, ProviderOutput};
use crate::units::{
    iec_divisor, iec_exponent, iec_unit_name, si_divisor, si_exponent, si_unit_name,
    to_disk_size_measure,
};

verus! {

/// Raw counters for one mounted disk, as probed from the operating
/// system.
#[derive(Debug, Clone)]
pub struct DiskProbe {
    /// Disk name; may be empty.
    pub name: String,
    pub file_system: String,
    pub mount_point: String,
    /// Total size in bytes.
    pub total_space: u64,
    /// Available size in bytes.
    pub available_space: u64,
    pub is_removable: bool,
    pub drive_type: String,
}

/// Mathematical view of `DiskProbe`.
pub struct DiskProbeView {
    pub name: Seq<char>,
    pub file_system: Seq<char>,
    pub mount_point: Seq<char>,
    pub total_space: u64,
    pub available_space: u64,
    pub is_removable: bool,
    pub drive_type: Seq<char>,
}

impl View for DiskProbe {
    type V = DiskProbeView;

    open spec fn view(&self) -> DiskProbeView {
        DiskProbeView {
            name: self.name@,
            file_system: self.file_system@,
            mount_point: self.mount_point@,
            total_space: self.total_space,
            available_space: self.available_space,
            is_removable: self.is_removable,
            drive_type: self.drive_type@,
        }
    }
}

/// The size measure derived from a byte count: the exact bytes with both
/// scaled magnitudes.
pub open spec fn measure_of_bytes(bytes: u64) -> DiskSizeMeasureView {
    DiskSizeMeasureView {
        bytes,
        si_value_centi: (bytes * 100 / si_divisor(si_exponent(bytes))) as u64,
        si_unit: si_unit_name(si_exponent(bytes)),
        iec_value_centi: (bytes * 100 / iec_divisor(iec_exponent(bytes))) as u64,
        iec_unit: iec_unit_name(iec_exponent(bytes)),
    }
}

/// The disk entry derived from a probe: an empty name becomes absent, and
/// both space figures carry their scaled magnitudes.
pub open spec fn disk_of_probe(p: DiskProbeView) -> DiskView {
    DiskView {
        name: if p.name.len() == 0 {
            None
        } else {
            Some(p.name)
        },
        file_system: p.file_system,
        mount_point: p.mount_point,
        total_space: measure_of_bytes(p.total_space),
        available_space: measure_of_bytes(p.available_space),
        is_removable: p.is_removable,
        drive_type: p.drive_type,
    }
}

/// A disk provider instance, spawned from its configuration.
#[derive(Debug, Clone, Copy)]
pub struct DiskProvider {
    pub config: DiskProviderConfig,
}

impl DiskProvider {
    /// Creates a disk provider from its configuration.
    pub fn new(config: DiskProviderConfig) -> (p: DiskProvider)
        ensures
            p.config == config,
    {
        DiskProvider { config }
    }

    /// The runtime model of this kind: a dedicated worker thread.
    pub fn runtime_type(&self) -> (t: ThreadingType)
        ensures
            t == ProviderKind::Disk.spec_threading_type(),
    {
        ThreadingType::Sync
    }

    /// The configured refresh period in milliseconds.
    pub fn refresh_interval_ms(&self) -> (ms: u64)
        ensures
            ms == self.config.refresh_interval,
    {
        self.config.refresh_interval
    }

    /// One refresh: derives the disk output from the probed counters, one
    /// entry per mounted disk, in probe order.
    pub fn run_interval(&self, probes: Vec<DiskProbe>) -> (out: ProviderOutput)
        ensures
            (match out@ {
                crate::outputs::ProviderOutputView::Disk(d) => {
                    &&& d.disks.len() == probes@.len()
                    &&& forall|i: int|
                        0 <= i < probes@.len() ==> d.disks[i] == disk_of_probe(probes@[i]@)
                },
                _ => false,
            }),
    {
        let mut disks: Vec<Disk> = Vec::new();
        let n = probes.len();
        for i in 0..n
            invariant
                n == probes@.len(),
                disks@.len() == i,
                forall|j: int| 0 <= j < i ==> disks@[j]@ == disk_of_probe(probes@[j]@),
        {
            let probe = &probes[i];
            let name = if probe.name.as_str().is_empty() {
                None
            } else {
                Some(probe.name.clone())
            };
            let total_space = to_disk_size_measure(probe.total_space);
            let available_space = to_disk_size_measure(probe.available_space);
            disks.push(
                Disk {
                    name,
                    file_system: probe.file_system.clone(),
                    mount_point: probe.mount_point.clone(),
                    total_space,
                    available_space,
                    is_removable: probe.is_removable,
                    drive_type: probe.drive_type.clone(),
                },
            );
        }
        ProviderOutput::Disk(DiskOutput { disks })
    }
}

} // verus!
