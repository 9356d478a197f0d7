use provider_runtime::config::{CpuProviderConfig, MemoryProviderConfig, ThreadingType};
use provider_runtime::cpu::CpuProvider;
use provider_runtime::memory::MemoryProvider;
use provider_runtime::outputs::ProviderOutput;
use provider_runtime::snapshot::{CpuProbe, MemoryProbe, SystemSnapshot};

fn cpu_probe(usage_centi: u32) -> CpuProbe {
    CpuProbe {
        usage_centi,
        frequency: 3600,
        logical_core_count: 16,
        physical_core_count: Some(8),
        vendor: "GenuineIntel".to_string(),
    }
}

fn memory_probe(free: u64) -> MemoryProbe {
    MemoryProbe {
        free_memory: free,
        used_memory: 6_000_000_000,
        total_memory: 16_000_000_000,
        free_swap: 1_000_000_000,
        used_swap: 0,
        total_swap: 1_000_000_000,
    }
}

#[test]
fn cpu_refresh_does_not_disturb_memory_fields() {
    let mut snapshot = SystemSnapshot::new();
    snapshot.refresh_memory(memory_probe(10_000_000_000));
    let before = snapshot.memory_reading().clone().expect("memory was refreshed");

    // A CPU refresh touches only the CPU fields.
    snapshot.refresh_cpu(cpu_probe(4200));
    let after = snapshot.memory_reading().clone().expect("memory still refreshed");
    assert!(before.same_as(&after));
    assert_eq!(after.free_memory, 10_000_000_000);

    // Only an explicit memory refresh moves the memory fields.
    snapshot.refresh_memory(memory_probe(9_000_000_000));
    let moved = snapshot.memory_reading().clone().expect("memory refreshed again");
    assert_eq!(moved.free_memory, 9_000_000_000);
    // And the CPU fields survived that in turn.
    let cpu = snapshot.cpu_reading().clone().expect("cpu was refreshed");
    assert_eq!(cpu.usage_centi, 4200);
}

#[test]
fn fresh_snapshot_has_no_readings() {
    let snapshot = SystemSnapshot::new();
    assert!(snapshot.cpu_reading().is_none());
    assert!(snapshot.memory_reading().is_none());
}

#[test]
fn cpu_provider_builds_output_from_probe() {
    let provider = CpuProvider::new(CpuProviderConfig { refresh_interval: 5000 });
    assert_eq!(provider.runtime_type(), ThreadingType::Sync);
    assert_eq!(provider.refresh_interval_ms(), 5000);
    let mut snapshot = SystemSnapshot::new();
    match provider.get_refreshed_variables(&mut snapshot, cpu_probe(150)) {
        ProviderOutput::Cpu(cpu) => {
            assert_eq!(cpu.usage_centi, 150);
            assert_eq!(cpu.frequency, 3600);
            assert_eq!(cpu.logical_core_count, 16);
            assert_eq!(cpu.physical_core_count, 8);
            assert_eq!(cpu.vendor, "GenuineIntel");
        }
        other => panic!("expected a cpu output, got {:?}", other),
    }
}

#[test]
fn physical_core_count_falls_back_to_logical() {
    let provider = CpuProvider::new(CpuProviderConfig { refresh_interval: 5000 });
    let mut snapshot = SystemSnapshot::new();
    let probe = CpuProbe {
        physical_core_count: None,
        ..cpu_probe(100)
    };
    match provider.get_refreshed_variables(&mut snapshot, probe) {
        ProviderOutput::Cpu(cpu) => assert_eq!(cpu.physical_core_count, 16),
        other => panic!("expected a cpu output, got {:?}", other),
    }
}

#[test]
fn memory_provider_builds_output_from_probe() {
    let provider = MemoryProvider::new(MemoryProviderConfig { refresh_interval: 5000 });
    assert_eq!(provider.runtime_type(), ThreadingType::Sync);
    let mut snapshot = SystemSnapshot::new();
    match provider.get_refreshed_variables(&mut snapshot, memory_probe(123)) {
        ProviderOutput::Memory(memory) => {
            assert_eq!(memory.free_memory, 123);
            assert_eq!(memory.used_memory, 6_000_000_000);
            assert_eq!(memory.total_memory, 16_000_000_000);
            assert_eq!(memory.free_swap, 1_000_000_000);
            assert_eq!(memory.used_swap, 0);
            assert_eq!(memory.total_swap, 1_000_000_000);
        }
        other => panic!("expected a memory output, got {:?}", other),
    }
}
