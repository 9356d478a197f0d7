use provider_runtime::config::{
    CpuProviderConfig, DiskProviderConfig, IpProviderConfig, MemoryProviderConfig, ProviderConfig,
    ProviderKind, ThreadingType, WeatherProviderConfig,
};

#[test]
fn os_probing_kinds_run_on_threads_network_kinds_as_tasks() {
    assert_eq!(ProviderKind::Cpu.threading_type(), ThreadingType::Sync);
    assert_eq!(ProviderKind::Memory.threading_type(), ThreadingType::Sync);
    assert_eq!(ProviderKind::Disk.threading_type(), ThreadingType::Sync);
    assert_eq!(ProviderKind::Ip.threading_type(), ThreadingType::Async);
    assert_eq!(ProviderKind::Weather.threading_type(), ThreadingType::Async);
}

#[test]
fn each_variant_reports_its_kind_and_interval() {
    let configs = [
        (ProviderConfig::Cpu(CpuProviderConfig { refresh_interval: 1 }), ProviderKind::Cpu),
        (
            ProviderConfig::Memory(MemoryProviderConfig { refresh_interval: 2 }),
            ProviderKind::Memory,
        ),
        (ProviderConfig::Disk(DiskProviderConfig { refresh_interval: 3 }), ProviderKind::Disk),
        (ProviderConfig::Ip(IpProviderConfig { refresh_interval: 4 }), ProviderKind::Ip),
        (
            ProviderConfig::Weather(WeatherProviderConfig {
                refresh_interval: 5,
                latitude: None,
                longitude: None,
            }),
            ProviderKind::Weather,
        ),
    ];
    for (i, (config, kind)) in configs.iter().enumerate() {
        assert_eq!(config.kind(), *kind);
        assert_eq!(config.refresh_interval(), (i + 1) as u64);
        assert!(config.validate());
    }
}

#[test]
fn zero_interval_is_invalid_for_every_kind() {
    assert!(!ProviderConfig::Cpu(CpuProviderConfig { refresh_interval: 0 }).validate());
    assert!(!ProviderConfig::Ip(IpProviderConfig { refresh_interval: 0 }).validate());
}

#[test]
fn weather_coordinates_are_range_checked() {
    let valid = ProviderConfig::Weather(WeatherProviderConfig {
        refresh_interval: 1000,
        latitude: Some(90_000_000),
        longitude: Some(-180_000_000),
    });
    assert!(valid.validate());
    let bad_latitude = ProviderConfig::Weather(WeatherProviderConfig {
        refresh_interval: 1000,
        latitude: Some(90_000_001),
        longitude: Some(0),
    });
    assert!(!bad_latitude.validate());
    let bad_longitude = ProviderConfig::Weather(WeatherProviderConfig {
        refresh_interval: 1000,
        latitude: Some(0),
        longitude: Some(-180_000_001),
    });
    assert!(!bad_longitude.validate());
}

#[test]
fn dedup_is_enabled_for_every_kind() {
    assert!(ProviderKind::Cpu.dedup_enabled());
    assert!(ProviderKind::Memory.dedup_enabled());
    assert!(ProviderKind::Disk.dedup_enabled());
    assert!(ProviderKind::Ip.dedup_enabled());
    assert!(ProviderKind::Weather.dedup_enabled());
}
