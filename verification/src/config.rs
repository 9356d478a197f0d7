//! Provider configurations: one variant per provider kind, carrying the
//! kind-specific parameters a provider is spawned from. A configuration is
//! immutable once a provider runs; subscription requests share one running
//! instance exactly when they carry the same configuration fingerprint.

use vstd::prelude::*;

verus! {

/// Whether a provider's loop runs on a dedicated worker thread (blocking
/// channel operations) or as a cooperatively scheduled task (awaited
/// operations). Fixed per provider kind, not user-configurable.
#[derive(Clone, Copy, Debug, PartialEq, Eq, Structural)]
pub enum ThreadingType {
    Sync,
    Async,
}

/// The closed set of provider kinds.
#[derive(Clone, Copy, Debug, PartialEq, Eq, Structural)]
pub enum ProviderKind {
    Cpu,
    Memory,
    Disk,
    Ip,
    Weather,
}

/// Configuration for the CPU provider.
#[derive(Clone, Copy, Debug, PartialEq, Eq, Structural)]
pub struct CpuProviderConfig {
    /// Refresh period in milliseconds.
    pub refresh_interval: u64,
}

/// Configuration for the memory provider.
#[derive(Clone, Copy, Debug, PartialEq, Eq, Structural)]
pub struct MemoryProviderConfig {
    /// Refresh period in milliseconds.
    pub refresh_interval: u64,
}

/// Configuration for the disk provider.
#[derive(Clone, Copy, Debug, PartialEq, Eq, Structural)]
pub struct DiskProviderConfig {
    /// Refresh period in milliseconds.
    pub refresh_interval: u64,
}

/// Configuration for the IP geolocation provider.
#[derive(Clone, Copy, Debug, PartialEq, Eq, Structural)]
pub struct IpProviderConfig {
    /// Refresh period in milliseconds.
    pub refresh_interval: u64,
}

/// Configuration for the weather provider. Coordinates are in
/// micro-degrees; when either is absent, each refresh first resolves
/// approximate coordinates through an IP geolocation lookup.
#[derive(Clone, Copy, Debug, PartialEq, Eq, Structural)]
pub struct WeatherProviderConfig {
    /// Refresh period in milliseconds.
    pub refresh_interval: u64,
    /// Latitude in micro-degrees, if fixed by configuration.
    pub latitude: Option<i64>,
    /// Longitude in micro-degrees, if fixed by configuration.
    pub longitude: Option<i64>,
}

/// Tagged union over the kind-specific configurations.
#[derive(Clone, Copy, Debug, PartialEq, Eq, Structural)]
pub enum ProviderConfig {
    Cpu(CpuProviderConfig),
    Memory(MemoryProviderConfig),
    Disk(DiskProviderConfig),
    Ip(IpProviderConfig),
    Weather(WeatherProviderConfig),
}

/// Largest meaningful latitude, in micro-degrees.
pub const MAX_LATITUDE_MICRO: i64 = 90_000_000;

/// Largest meaningful longitude, in micro-degrees.
pub const MAX_LONGITUDE_MICRO: i64 = 180_000_000;

impl ProviderKind {
    /// The runtime model intrinsic to each kind: network-bound kinds run
    /// as cooperatively scheduled tasks, OS-probing kinds on dedicated
    /// worker threads.
    pub open spec fn spec_threading_type(self) -> ThreadingType {
        match self {
            ProviderKind::Cpu => ThreadingType::Sync,
            ProviderKind::Memory => ThreadingType::Sync,
            ProviderKind::Disk => ThreadingType::Sync,
            ProviderKind::Ip => ThreadingType::Async,
            ProviderKind::Weather => ThreadingType::Async,
        }
    }

    /// Returns the runtime model for this kind.
    pub fn threading_type(self) -> (t: ThreadingType)
        ensures
            t == self.spec_threading_type(),
    {
        match self {
            ProviderKind::Cpu => ThreadingType::Sync,
            ProviderKind::Memory => ThreadingType::Sync,
            ProviderKind::Disk => ThreadingType::Sync,
            ProviderKind::Ip => ThreadingType::Async,
            ProviderKind::Weather => ThreadingType::Async,
        }
    }

    /// Whether consecutive byte-identical outputs of this kind are
    /// de-duplicated: the second emission is suppressed. Enabled for every
    /// kind in this set.
    pub open spec fn spec_dedup_enabled(self) -> bool {
        true
    }

    /// Returns whether de-duplication is enabled for this kind.
    pub fn dedup_enabled(self) -> (d: bool)
        ensures
            d == self.spec_dedup_enabled(),
    {
        true
    }
}

impl ProviderConfig {
    /// The kind this configuration selects.
    pub open spec fn spec_kind(self) -> ProviderKind {
        match self {
            ProviderConfig::Cpu(_) => ProviderKind::Cpu,
            ProviderConfig::Memory(_) => ProviderKind::Memory,
            ProviderConfig::Disk(_) => ProviderKind::Disk,
            ProviderConfig::Ip(_) => ProviderKind::Ip,
            ProviderConfig::Weather(_) => ProviderKind::Weather,
        }
    }

    /// Returns the kind this configuration selects.
    pub fn kind(&self) -> (k: ProviderKind)
        ensures
            k == self.spec_kind(),
    {
        match self {
            ProviderConfig::Cpu(_) => ProviderKind::Cpu,
            ProviderConfig::Memory(_) => ProviderKind::Memory,
            ProviderConfig::Disk(_) => ProviderKind::Disk,
            ProviderConfig::Ip(_) => ProviderKind::Ip,
            ProviderConfig::Weather(_) => ProviderKind::Weather,
        }
    }

    /// The configured refresh period in milliseconds.
    pub open spec fn spec_refresh_interval(self) -> u64 {
        match self {
            ProviderConfig::Cpu(c) => c.refresh_interval,
            ProviderConfig::Memory(c) => c.refresh_interval,
            ProviderConfig::Disk(c) => c.refresh_interval,
            ProviderConfig::Ip(c) => c.refresh_interval,
            ProviderConfig::Weather(c) => c.refresh_interval,
        }
    }

    /// Returns the configured refresh period in milliseconds.
    pub fn refresh_interval(&self) -> (ms: u64)
        ensures
            ms == self.spec_refresh_interval(),
    {
        match self {
            ProviderConfig::Cpu(c) => c.refresh_interval,
            ProviderConfig::Memory(c) => c.refresh_interval,
            ProviderConfig::Disk(c) => c.refresh_interval,
            ProviderConfig::Ip(c) => c.refresh_interval,
            ProviderConfig::Weather(c) => c.refresh_interval,
        }
    }

    /// Well-formedness of a configuration for its declared kind: the
    /// refresh period is at least one millisecond, and fixed weather
    /// coordinates, where present, lie in the meaningful range.
    pub open spec fn is_valid(self) -> bool {
        &&& self.spec_refresh_interval() >= 1
        &&& match self {
            ProviderConfig::Weather(c) => {
                &&& match c.latitude {
                    Some(lat) => -MAX_LATITUDE_MICRO <= lat <= MAX_LATITUDE_MICRO,
                    None => true,
                }
                &&& match c.longitude {
                    Some(lon) => -MAX_LONGITUDE_MICRO <= lon <= MAX_LONGITUDE_MICRO,
                    None => true,
                }
            },
            _ => true,
        }
    }

    /// Checks well-formedness of this configuration.
    pub fn validate(&self) -> (ok: bool)
        ensures
            ok == self.is_valid(),
    {
        if self.refresh_interval() < 1 {
            return false;
        }
        match self {
            ProviderConfig::Weather(c) => {
                let lat_ok = match c.latitude {
                    Some(lat) => -MAX_LATITUDE_MICRO <= lat && lat <= MAX_LATITUDE_MICRO,
                    None => true,
                };
                let lon_ok = match c.longitude {
                    Some(lon) => -MAX_LONGITUDE_MICRO <= lon && lon <= MAX_LONGITUDE_MICRO,
                    None => true,
                };
                lat_ok && lon_ok
            },
            _ => true,
        }
    }
}

} // verus!
