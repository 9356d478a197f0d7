use provider_runtime::config::{
    CpuProviderConfig, IpProviderConfig, ProviderConfig, ThreadingType, WeatherProviderConfig,
};
use provider_runtime::errors::{ManagerError, RefreshError};
use provider_runtime::manager::{CreateAction, DestroyAction, EmitDecision, ProviderManager};
use provider_runtime::outputs::{MemoryOutput, ProviderOutput};

fn cpu_config(interval: u64) -> ProviderConfig {
    ProviderConfig::Cpu(CpuProviderConfig { refresh_interval: interval })
}

fn memory_output(free: u64) -> ProviderOutput {
    ProviderOutput::Memory(MemoryOutput {
        free_memory: free,
        used_memory: 10,
        total_memory: 100,
        free_swap: 0,
        used_swap: 0,
        total_swap: 0,
    })
}

#[test]
fn first_create_spawns_one_instance() {
    let mut manager = ProviderManager::new();
    assert_eq!(
        manager.create(7, cpu_config(1000), 1),
        Ok(CreateAction::Spawned(ThreadingType::Sync))
    );
    assert!(manager.contains(7));
    assert_eq!(manager.subscriber_count(7), Some(1));
}

#[test]
fn second_create_only_grows_the_subscriber_set() {
    let mut manager = ProviderManager::new();
    assert_eq!(
        manager.create(7, cpu_config(1000), 1),
        Ok(CreateAction::Spawned(ThreadingType::Sync))
    );
    assert_eq!(manager.create(7, cpu_config(1000), 2), Ok(CreateAction::Subscribed));
    assert_eq!(manager.create(7, cpu_config(1000), 3), Ok(CreateAction::Subscribed));
    assert_eq!(manager.subscriber_count(7), Some(3));
}

#[test]
fn repeated_subscriber_is_not_counted_twice() {
    let mut manager = ProviderManager::new();
    assert_eq!(
        manager.create(7, cpu_config(1000), 1),
        Ok(CreateAction::Spawned(ThreadingType::Sync))
    );
    assert_eq!(manager.create(7, cpu_config(1000), 1), Ok(CreateAction::Subscribed));
    assert_eq!(manager.subscriber_count(7), Some(1));
}

#[test]
fn different_fingerprints_get_their_own_instances() {
    let mut manager = ProviderManager::new();
    assert_eq!(
        manager.create(7, cpu_config(1000), 1),
        Ok(CreateAction::Spawned(ThreadingType::Sync))
    );
    assert_eq!(
        manager.create(
            8,
            ProviderConfig::Ip(IpProviderConfig { refresh_interval: 2000 }),
            1
        ),
        Ok(CreateAction::Spawned(ThreadingType::Async))
    );
    assert_eq!(manager.subscriber_count(7), Some(1));
    assert_eq!(manager.subscriber_count(8), Some(1));
}

#[test]
fn zero_interval_is_a_config_error() {
    let mut manager = ProviderManager::new();
    assert_eq!(manager.create(7, cpu_config(0), 1), Err(ManagerError::ConfigError));
    assert!(!manager.contains(7));
}

#[test]
fn out_of_range_weather_coordinates_are_a_config_error() {
    let mut manager = ProviderManager::new();
    let config = ProviderConfig::Weather(WeatherProviderConfig {
        refresh_interval: 1000,
        latitude: Some(91_000_000),
        longitude: Some(0),
    });
    assert_eq!(manager.create(7, config, 1), Err(ManagerError::ConfigError));
}

#[test]
fn failed_spawn_rolls_the_registration_back() {
    let mut manager = ProviderManager::new();
    assert_eq!(
        manager.create(7, cpu_config(1000), 1),
        Ok(CreateAction::Spawned(ThreadingType::Sync))
    );
    assert_eq!(manager.complete_spawn(7, false), Err(ManagerError::SpawnError));
    assert!(!manager.contains(7));
    // The caller may then retry.
    assert_eq!(
        manager.create(7, cpu_config(1000), 1),
        Ok(CreateAction::Spawned(ThreadingType::Sync))
    );
    assert_eq!(manager.complete_spawn(7, true), Ok(()));
    assert!(manager.contains(7));
}

#[test]
fn destroy_of_unknown_fingerprint_is_not_found() {
    let mut manager = ProviderManager::new();
    assert_eq!(manager.destroy(7, 1), Err(ManagerError::NotFoundError));
}

#[test]
fn destroy_of_unknown_subscriber_is_not_found() {
    let mut manager = ProviderManager::new();
    manager.create(7, cpu_config(1000), 1).unwrap();
    assert_eq!(manager.destroy(7, 2), Err(ManagerError::NotFoundError));
    assert_eq!(manager.subscriber_count(7), Some(1));
}

#[test]
fn last_destroy_tears_the_instance_down() {
    let mut manager = ProviderManager::new();
    manager.create(7, cpu_config(1000), 1).unwrap();
    manager.create(7, cpu_config(1000), 2).unwrap();
    assert_eq!(manager.destroy(7, 1), Ok(DestroyAction::Removed));
    assert_eq!(manager.subscriber_count(7), Some(1));
    assert_eq!(manager.destroy(7, 2), Ok(DestroyAction::Stopped));
    assert!(!manager.contains(7));
}

#[test]
fn refresh_fans_out_to_all_subscribers() {
    let mut manager = ProviderManager::new();
    manager.create(7, cpu_config(1000), 1).unwrap();
    manager.create(7, cpu_config(1000), 2).unwrap();
    match manager.handle_refresh(7, Ok(memory_output(50))) {
        Ok(EmitDecision::Emit(subscribers)) => assert_eq!(subscribers, vec![1, 2]),
        other => panic!("expected an emission, got {:?}", other),
    }
}

#[test]
fn identical_consecutive_outputs_yield_one_emission() {
    let mut manager = ProviderManager::new();
    manager.create(7, cpu_config(1000), 1).unwrap();
    match manager.handle_refresh(7, Ok(memory_output(50))) {
        Ok(EmitDecision::Emit(subscribers)) => assert_eq!(subscribers, vec![1]),
        other => panic!("expected an emission, got {:?}", other),
    }
    match manager.handle_refresh(7, Ok(memory_output(50))) {
        Ok(EmitDecision::Suppressed) => {}
        other => panic!("expected the duplicate to be suppressed, got {:?}", other),
    }
    // A changed payload is emitted again.
    match manager.handle_refresh(7, Ok(memory_output(51))) {
        Ok(EmitDecision::Emit(subscribers)) => assert_eq!(subscribers, vec![1]),
        other => panic!("expected an emission, got {:?}", other),
    }
}

#[test]
fn failed_refresh_retains_the_previous_output() {
    let mut manager = ProviderManager::new();
    manager.create(7, cpu_config(1000), 1).unwrap();
    match manager.handle_refresh(7, Ok(memory_output(50))) {
        Ok(EmitDecision::Emit(_)) => {}
        other => panic!("expected an emission, got {:?}", other),
    }
    match manager.handle_refresh(7, Err(RefreshError::Unavailable)) {
        Ok(EmitDecision::Retained) => {}
        other => panic!("expected the previous output to be retained, got {:?}", other),
    }
    // The retained output still de-duplicates the next identical payload.
    match manager.handle_refresh(7, Ok(memory_output(50))) {
        Ok(EmitDecision::Suppressed) => {}
        other => panic!("expected the duplicate to be suppressed, got {:?}", other),
    }
}

#[test]
fn refresh_for_unknown_fingerprint_is_not_found() {
    let mut manager = ProviderManager::new();
    assert!(matches!(
        manager.handle_refresh(7, Ok(memory_output(50))),
        Err(ManagerError::NotFoundError)
    ));
}
