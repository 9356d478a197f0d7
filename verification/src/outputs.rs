//! Typed provider outputs: one variant per provider kind, holding the last
//! computed values. A fresh value fully replaces the previous one. Each
//! output type has a mathematical view, and `same_as` decides view equality
//! executably; the manager uses it to de-duplicate consecutive emissions.

use vstd::prelude::*;

use crate::weather::WeatherStatus;

verus! {

/// CPU telemetry values.
#[derive(Debug, Clone)]
pub struct CpuOutput {
    /// Aggregate usage in centi-percent (0..=10000 for 0%..100%).
    pub usage_centi: u32,
    /// Aggregate frequency in MHz.
    pub frequency: u64,
    /// Number of logical cores.
    pub logical_core_count: usize,
    /// Number of physical cores.
    pub physical_core_count: usize,
    /// CPU vendor identifier.
    pub vendor: String,
}

/// Mathematical view of `CpuOutput`.
pub struct CpuOutputView {
    pub usage_centi: u32,
    pub frequency: u64,
    pub logical_core_count: usize,
    pub physical_core_count: usize,
    pub vendor: Seq<char>,
}

impl View for CpuOutput {
    type V = CpuOutputView;

    open spec fn view(&self) -> CpuOutputView {
        CpuOutputView {
            usage_centi: self.usage_centi,
            frequency: self.frequency,
            logical_core_count: self.logical_core_count,
            physical_core_count: self.physical_core_count,
            vendor: self.vendor@,
        }
    }
}

impl CpuOutput {
    /// Decides whether two CPU outputs carry identical values.
    pub fn same_as(&self, other: &CpuOutput) -> (r: bool)
        ensures
            r == (self@ == other@),
    {
        self.usage_centi == other.usage_centi && self.frequency == other.frequency
            && self.logical_core_count == other.logical_core_count
            && self.physical_core_count == other.physical_core_count
            && self.vendor == other.vendor
    }
}

/// Memory telemetry values, in bytes.
#[derive(Debug, Clone, PartialEq, Eq, Structural)]
pub struct MemoryOutput {
    pub free_memory: u64,
    pub used_memory: u64,
    pub total_memory: u64,
    pub free_swap: u64,
    pub used_swap: u64,
    pub total_swap: u64,
}

/// Mathematical view of `MemoryOutput`.
pub struct MemoryOutputView {
    pub free_memory: u64,
    pub used_memory: u64,
    pub total_memory: u64,
    pub free_swap: u64,
    pub used_swap: u64,
    pub total_swap: u64,
}

impl View for MemoryOutput {
    type V = MemoryOutputView;

    open spec fn view(&self) -> MemoryOutputView {
        MemoryOutputView {
            free_memory: self.free_memory,
            used_memory: self.used_memory,
            total_memory: self.total_memory,
            free_swap: self.free_swap,
            used_swap: self.used_swap,
            total_swap: self.total_swap,
        }
    }
}

impl MemoryOutput {
    /// Decides whether two memory outputs carry identical values.
    pub fn same_as(&self, other: &MemoryOutput) -> (r: bool)
        ensures
            r == (self@ == other@),
    {
        self.free_memory == other.free_memory && self.used_memory == other.used_memory
            && self.total_memory == other.total_memory && self.free_swap == other.free_swap
            && self.used_swap == other.used_swap && self.total_swap == other.total_swap
    }
}

/// A byte count together with its human-readable decimal (SI) and binary
/// (IEC) magnitudes, each as a centi-scaled value and a unit name.
#[derive(Debug, Clone)]
pub struct DiskSizeMeasure {
    /// Exact size in bytes.
    pub bytes: u64,
    /// Size scaled to `si_unit`, in hundredths.
    pub si_value_centi: u64,
    /// Decimal unit name (B, kB, MB, ...).
    pub si_unit: String,
    /// Size scaled to `iec_unit`, in hundredths.
    pub iec_value_centi: u64,
    /// Binary unit name (B, KiB, MiB, ...).
    pub iec_unit: String,
}

/// Mathematical view of `DiskSizeMeasure`.
pub struct DiskSizeMeasureView {
    pub bytes: u64,
    pub si_value_centi: u64,
    pub si_unit: Seq<char>,
    pub iec_value_centi: u64,
    pub iec_unit: Seq<char>,
}

impl View for DiskSizeMeasure {
    type V = DiskSizeMeasureView;

    open spec fn view(&self) -> DiskSizeMeasureView {
        DiskSizeMeasureView {
            bytes: self.bytes,
            si_value_centi: self.si_value_centi,
            si_unit: self.si_unit@,
            iec_value_centi: self.iec_value_centi,
            iec_unit: self.iec_unit@,
        }
    }
}

impl DiskSizeMeasure {
    /// Decides whether two size measures carry identical values.
    pub fn same_as(&self, other: &DiskSizeMeasure) -> (r: bool)
        ensures
            r == (self@ == other@),
    {
        self.bytes == other.bytes && self.si_value_centi == other.si_value_centi
            && self.si_unit == other.si_unit && self.iec_value_centi == other.iec_value_centi
            && self.iec_unit == other.iec_unit
    }
}

/// One mounted disk.
#[derive(Debug, Clone)]
pub struct Disk {
    /// Disk name; absent when the underlying name is empty.
    pub name: Option<String>,
    pub file_system: String,
    pub mount_point: String,
    pub total_space: DiskSizeMeasure,
    pub available_space: DiskSizeMeasure,
    pub is_removable: bool,
    pub drive_type: String,
}

/// Mathematical view of `Disk`.
pub struct DiskView {
    pub name: Option<Seq<char>>,
    pub file_system: Seq<char>,
    pub mount_point: Seq<char>,
    pub total_space: DiskSizeMeasureView,
    pub available_space: DiskSizeMeasureView,
    pub is_removable: bool,
    pub drive_type: Seq<char>,
}

impl View for Disk {
    type V = DiskView;

    open spec fn view(&self) -> DiskView {
        DiskView {
            name: match self.name {
                Some(n) => Some(n@),
                None => None,
            },
            file_system: self.file_system@,
            mount_point: self.mount_point@,
            total_space: self.total_space@,
            available_space: self.available_space@,
            is_removable: self.is_removable,
            drive_type: self.drive_type@,
        }
    }
}

impl Disk {
    /// Decides whether two disk entries carry identical values.
    pub fn same_as(&self, other: &Disk) -> (r: bool)
        ensures
            r == (self@ == other@),
    {
        let name_eq = match (&self.name, &other.name) {
            (Some(a), Some(b)) => *a == *b,
            (None, None) => true,
            _ => false,
        };
        name_eq && self.file_system == other.file_system
            && self.mount_point == other.mount_point
            && self.total_space.same_as(&other.total_space)
            && self.available_space.same_as(&other.available_space)
            && self.is_removable == other.is_removable && self.drive_type == other.drive_type
    }
}

/// Disk telemetry values: one entry per mounted disk.
#[derive(Debug, Clone)]
pub struct DiskOutput {
    pub disks: Vec<Disk>,
}

/// Mathematical view of `DiskOutput`.
pub struct DiskOutputView {
    pub disks: Seq<DiskView>,
}

impl View for DiskOutput {
    type V = DiskOutputView;

    open spec fn view(&self) -> DiskOutputView {
        DiskOutputView { disks: self.disks@.map_values(|d: Disk| d@) }
    }
}

impl DiskOutput {
    /// Decides whether two disk outputs carry identical values.
    pub fn same_as(&self, other: &DiskOutput) -> (r: bool)
        ensures
            r == (self@ == other@),
    {
        if self.disks.len() != other.disks.len() {
            proof {
                assert(self@.disks.len() == self.disks@.len());
                assert(other@.disks.len() == other.disks@.len());
            }
            return false;
        }
        let n = self.disks.len();
        for i in 0..n
            invariant
                n == self.disks.len() == other.disks.len(),
                forall|j: int| 0 <= j < i ==> self.disks@[j]@ == other.disks@[j]@,
        {
            if !self.disks[i].same_as(&other.disks[i]) {
                assert(self@.disks[i as int] != other@.disks[i as int]);
                return false;
            }
        }
        proof {
            assert(self@.disks =~= other@.disks);
        }
        true
    }
}

/// IP geolocation telemetry values. Coordinates are in micro-degrees.
#[derive(Debug, Clone)]
pub struct IpOutput {
    pub address: String,
    pub approx_city: String,
    pub approx_country: String,
    pub approx_latitude: i64,
    pub approx_longitude: i64,
}

/// Mathematical view of `IpOutput`.
pub struct IpOutputView {
    pub address: Seq<char>,
    pub approx_city: Seq<char>,
    pub approx_country: Seq<char>,
    pub approx_latitude: i64,
    pub approx_longitude: i64,
}

impl View for IpOutput {
    type V = IpOutputView;

    open spec fn view(&self) -> IpOutputView {
        IpOutputView {
            address: self.address@,
            approx_city: self.approx_city@,
            approx_country: self.approx_country@,
            approx_latitude: self.approx_latitude,
            approx_longitude: self.approx_longitude,
        }
    }
}

impl IpOutput {
    /// Decides whether two IP outputs carry identical values.
    pub fn same_as(&self, other: &IpOutput) -> (r: bool)
        ensures
            r == (self@ == other@),
    {
        self.address == other.address && self.approx_city == other.approx_city
            && self.approx_country == other.approx_country
            && self.approx_latitude == other.approx_latitude
            && self.approx_longitude == other.approx_longitude
    }
}

/// Weather telemetry values. Temperatures are in centi-degrees, wind speed
/// in centi-units.
#[derive(Debug, Clone, PartialEq, Eq, Structural)]
pub struct WeatherOutput {
    pub is_daytime: bool,
    pub status: WeatherStatus,
    pub celsius_temp: i32,
    pub fahrenheit_temp: i64,
    pub wind_speed: i64,
}

/// Mathematical view of `WeatherOutput`.
pub struct WeatherOutputView {
    pub is_daytime: bool,
    pub status: WeatherStatus,
    pub celsius_temp: i32,
    pub fahrenheit_temp: i64,
    pub wind_speed: i64,
}

impl View for WeatherOutput {
    type V = WeatherOutputView;

    open spec fn view(&self) -> WeatherOutputView {
        WeatherOutputView {
            is_daytime: self.is_daytime,
            status: self.status,
            celsius_temp: self.celsius_temp,
            fahrenheit_temp: self.fahrenheit_temp,
            wind_speed: self.wind_speed,
        }
    }
}

impl WeatherOutput {
    /// Decides whether two weather outputs carry identical values.
    pub fn same_as(&self, other: &WeatherOutput) -> (r: bool)
        ensures
            r == (self@ == other@),
    {
        self.is_daytime == other.is_daytime && self.status == other.status
            && self.celsius_temp == other.celsius_temp
            && self.fahrenheit_temp == other.fahrenheit_temp
            && self.wind_speed == other.wind_speed
    }
}

/// Tagged union over the kind-specific outputs. Produced only by the
/// refresh operation of the matching provider; immutable once constructed.
#[derive(Debug, Clone)]
pub enum ProviderOutput {
    Cpu(CpuOutput),
    Memory(MemoryOutput),
    Disk(DiskOutput),
    Ip(IpOutput),
    Weather(WeatherOutput),
}

/// Mathematical view of `ProviderOutput`.
pub enum ProviderOutputView {
    Cpu(CpuOutputView),
    Memory(MemoryOutputView),
    Disk(DiskOutputView),
    Ip(IpOutputView),
    Weather(WeatherOutputView),
}

impl View for ProviderOutput {
    type V = ProviderOutputView;

    open spec fn view(&self) -> ProviderOutputView {
        match self {
            ProviderOutput::Cpu(o) => ProviderOutputView::Cpu(o@),
            ProviderOutput::Memory(o) => ProviderOutputView::Memory(o@),
            ProviderOutput::Disk(o) => ProviderOutputView::Disk(o@),
            ProviderOutput::Ip(o) => ProviderOutputView::Ip(o@),
            ProviderOutput::Weather(o) => ProviderOutputView::Weather(o@),
        }
    }
}

impl ProviderOutput {
    /// Decides whether two outputs carry identical payloads, as compared
    /// for de-duplication.
    pub fn same_as(&self, other: &ProviderOutput) -> (r: bool)
        ensures
            r == (self@ == other@),
    {
        match (self, other) {
            (ProviderOutput::Cpu(a), ProviderOutput::Cpu(b)) => a.same_as(b),
            (ProviderOutput::Memory(a), ProviderOutput::Memory(b)) => a.same_as(b),
            (ProviderOutput::Disk(a), ProviderOutput::Disk(b)) => a.same_as(b),
            (ProviderOutput::Ip(a), ProviderOutput::Ip(b)) => a.same_as(b),
            (ProviderOutput::Weather(a), ProviderOutput::Weather(b)) => a.same_as(b),
            _ => false,
        }
    }

    /// The kind whose refresh produced this output.
    pub open spec fn spec_kind(self) -> crate::config::ProviderKind {
        match self {
            ProviderOutput::Cpu(_) => crate::config::ProviderKind::Cpu,
            ProviderOutput::Memory(_) => crate::config::ProviderKind::Memory,
            ProviderOutput::Disk(_) => crate::config::ProviderKind::Disk,
            ProviderOutput::Ip(_) => crate::config::ProviderKind::Ip,
            ProviderOutput::Weather(_) => crate::config::ProviderKind::Weather,
        }
    }

    /// Returns the kind whose refresh produced this output.
    pub fn kind(&self) -> (k: crate::config::ProviderKind)
        ensures
            k == self.spec_kind(),
    {
        match self {
            ProviderOutput::Cpu(_) => crate::config::ProviderKind::Cpu,
            ProviderOutput::Memory(_) => crate::config::ProviderKind::Memory,
            ProviderOutput::Disk(_) => crate::config::ProviderKind::Disk,
            ProviderOutput::Ip(_) => crate::config::ProviderKind::Ip,
            ProviderOutput::Weather(_) => crate::config::ProviderKind::Weather,
        }
    }
}

} // verus!
