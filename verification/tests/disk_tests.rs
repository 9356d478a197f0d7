use provider_runtime::config::{DiskProviderConfig, ThreadingType};
use provider_runtime::disk::{DiskProbe, DiskProvider};
use provider_runtime::outputs::ProviderOutput;
use provider_runtime::units::{to_disk_size_measure, to_iec_bytes, to_si_bytes};

#[test]
fn small_sizes_stay_in_bytes() {
    let (value_centi, unit) = to_si_bytes(999);
    assert_eq!(value_centi, 99_900);
    assert_eq!(unit, "B");
    let (value_centi, unit) = to_iec_bytes(1023);
    assert_eq!(value_centi, 102_300);
    assert_eq!(unit, "B");
}

#[test]
fn decimal_scaling_uses_powers_of_thousand() {
    let (value_centi, unit) = to_si_bytes(1500);
    assert_eq!(value_centi, 150);
    assert_eq!(unit, "kB");
    let (value_centi, unit) = to_si_bytes(2_000_000);
    assert_eq!(value_centi, 200);
    assert_eq!(unit, "MB");
    let (value_centi, unit) = to_si_bytes(512_000_000_000);
    assert_eq!(value_centi, 51_200);
    assert_eq!(unit, "GB");
}

#[test]
fn binary_scaling_uses_powers_of_1024() {
    let (value_centi, unit) = to_iec_bytes(1024);
    assert_eq!(value_centi, 100);
    assert_eq!(unit, "KiB");
    let (value_centi, unit) = to_iec_bytes(1536);
    assert_eq!(value_centi, 150);
    assert_eq!(unit, "KiB");
    let (value_centi, unit) = to_iec_bytes(1_073_741_824);
    assert_eq!(value_centi, 100);
    assert_eq!(unit, "GiB");
}

#[test]
fn the_largest_byte_count_scales_to_exa_units() {
    let (value_centi, unit) = to_si_bytes(u64::MAX);
    assert_eq!(value_centi, 1844);
    assert_eq!(unit, "EB");
    let (value_centi, unit) = to_iec_bytes(u64::MAX);
    assert_eq!(value_centi, 1599);
    assert_eq!(unit, "EiB");
}

#[test]
fn measure_carries_bytes_and_both_scales() {
    let measure = to_disk_size_measure(1500);
    assert_eq!(measure.bytes, 1500);
    assert_eq!(measure.si_value_centi, 150);
    assert_eq!(measure.si_unit, "kB");
    assert_eq!(measure.iec_value_centi, 146);
    assert_eq!(measure.iec_unit, "KiB");
}

fn probe(name: &str) -> DiskProbe {
    DiskProbe {
        name: name.to_string(),
        file_system: "ext4".to_string(),
        mount_point: "/".to_string(),
        total_space: 512_000_000_000,
        available_space: 256_000_000_000,
        is_removable: false,
        drive_type: "SSD".to_string(),
    }
}

#[test]
fn run_interval_maps_each_probed_disk() {
    let provider = DiskProvider::new(DiskProviderConfig { refresh_interval: 60_000 });
    assert_eq!(provider.runtime_type(), ThreadingType::Sync);
    match provider.run_interval(vec![probe("nvme0n1"), probe("sda")]) {
        ProviderOutput::Disk(output) => {
            assert_eq!(output.disks.len(), 2);
            let first = &output.disks[0];
            assert_eq!(first.name.as_deref(), Some("nvme0n1"));
            assert_eq!(first.file_system, "ext4");
            assert_eq!(first.mount_point, "/");
            assert_eq!(first.total_space.bytes, 512_000_000_000);
            assert_eq!(first.total_space.si_value_centi, 51_200);
            assert_eq!(first.total_space.si_unit, "GB");
            assert_eq!(first.available_space.si_value_centi, 25_600);
            assert!(!first.is_removable);
            assert_eq!(first.drive_type, "SSD");
            assert_eq!(output.disks[1].name.as_deref(), Some("sda"));
        }
        other => panic!("expected a disk output, got {:?}", other),
    }
}

#[test]
fn empty_disk_name_becomes_absent() {
    let provider = DiskProvider::new(DiskProviderConfig { refresh_interval: 60_000 });
    match provider.run_interval(vec![probe("")]) {
        ProviderOutput::Disk(output) => assert_eq!(output.disks[0].name, None),
        other => panic!("expected a disk output, got {:?}", other),
    }
}
