use vaelix::acpi::{AcpiManager, DeviceState};
use vaelix::cpu_hybrid::driver;
use vaelix::hal::HalError;
use vaelix::perf::{CounterType, PmuManager};
use vaelix::policy::{calculate_target_frequency, PolicyManager, PolicyMode, PolicySettings};

fn system() -> (PolicyManager, PmuManager, vaelix::cpu_hybrid::HybridCpuDriver, AcpiManager) {
    let mut pmu = PmuManager::new();
    pmu.init();
    let manager = PolicyManager::init(&mut pmu).unwrap();
    let mut hw = driver();
    hw.init();
    let mut acpi = AcpiManager::new();
    acpi.init();
    (manager, pmu, hw, acpi)
}

// set_mode(PowerSaver) yields {2400, 800, false, 15, 65} exactly; only
// update_settings moves the mode tag to Custom.
#[test]
fn power_saver_template_is_exact() {
    let (mut manager, _pmu, mut hw, _acpi) = system();
    manager.set_mode(PolicyMode::PowerSaver, &mut hw).unwrap();
    assert_eq!(
        manager.settings,
        PolicySettings {
            mode: PolicyMode::PowerSaver,
            cpu_max_freq: 2400,
            cpu_min_freq: 800,
            turbo_enabled: false,
            perf_bias: 15,
            temp_target: 65,
        }
    );
    assert!(!hw.turbo_enabled);
    assert_eq!(hw.perf_bias, 15);
    // Switching to Custom keeps the values and only flips the tag.
    manager.set_mode(PolicyMode::Custom, &mut hw).unwrap();
    assert_eq!(manager.settings.mode, PolicyMode::Custom);
    assert_eq!(manager.settings.cpu_max_freq, 2400);
    assert_eq!(manager.settings.temp_target, 65);
}

#[test]
fn performance_and_balanced_templates_are_exact() {
    let (mut manager, _pmu, mut hw, _acpi) = system();
    manager.set_mode(PolicyMode::Performance, &mut hw).unwrap();
    assert_eq!(
        manager.settings,
        PolicySettings {
            mode: PolicyMode::Performance,
            cpu_max_freq: 4700,
            cpu_min_freq: 1200,
            turbo_enabled: true,
            perf_bias: 0,
            temp_target: 85,
        }
    );
    manager.set_mode(PolicyMode::Balanced, &mut hw).unwrap();
    assert_eq!(
        manager.settings,
        PolicySettings {
            mode: PolicyMode::Balanced,
            cpu_max_freq: 3600,
            cpu_min_freq: 800,
            turbo_enabled: true,
            perf_bias: 7,
            temp_target: 75,
        }
    );
}

#[test]
fn update_settings_forces_custom_mode() {
    let (mut manager, _pmu, mut hw, _acpi) = system();
    let wanted = PolicySettings {
        mode: PolicyMode::Performance,
        cpu_max_freq: 3000,
        cpu_min_freq: 1000,
        turbo_enabled: true,
        perf_bias: 3,
        temp_target: 70,
    };
    manager.update_settings(wanted, &mut hw).unwrap();
    assert_eq!(manager.settings.mode, PolicyMode::Custom);
    assert_eq!(manager.settings.cpu_max_freq, 3000);
    assert_eq!(manager.settings.cpu_min_freq, 1000);
    assert_eq!(manager.settings.perf_bias, 3);
    assert_eq!(hw.perf_bias, 3);
}

// A tick that sees temperature over the target disables turbo and forces
// every core to the configured minimum frequency.
#[test]
fn hot_tick_throttles_every_core() {
    let (mut manager, mut pmu, mut hw, mut acpi) = system();
    // Policy init enables the power counter (id 0) and the temperature
    // counter (id 1); 90 degrees exceeds the Balanced 75 degree target.
    pmu.record_sample(0, 12000).unwrap();
    pmu.record_sample(1, 90).unwrap();
    let failures = manager.tick(&pmu, &mut hw, &mut acpi).unwrap();
    assert_eq!(failures, 0);
    assert!(!hw.turbo_enabled);
    for state in &hw.states {
        assert_eq!(state.frequency, 800);
    }
    let snapshot = manager.get_component_states().unwrap();
    assert_eq!(snapshot.temperature, 90);
    assert_eq!(snapshot.power_draw, 12000);
    assert_eq!(snapshot.cpu_util, 50);
    assert_eq!(acpi.get_device_power_state(0, 0, 0), Some(DeviceState::D3Hot));
}

// A cool tick walks each core to the frequency its utilization asks for.
#[test]
fn cool_tick_tracks_utilization() {
    let (mut manager, mut pmu, mut hw, mut acpi) = system();
    pmu.record_sample(1, 60).unwrap();
    hw.set_core_utilization(0, 100).unwrap();
    hw.set_core_utilization(5, 0).unwrap();
    let failures = manager.tick(&pmu, &mut hw, &mut acpi).unwrap();
    assert_eq!(failures, 0);
    assert!(hw.turbo_enabled);
    // Balanced defaults at init: band 800-4700 MHz.
    assert_eq!(hw.states[0].frequency, 4700);
    assert_eq!(hw.states[5].frequency, 800);
    // The remaining cores sit at 50% utilization.
    assert_eq!(hw.states[1].frequency, 800 + 3900 * 50 / 100);
    // Mean utilization: (100 + 50 * 4 + 0) / 6 cores, but the mean runs
    // over the 8 topology entries (P-cores count once per thread):
    // (100 + 100 + 50 + 50 + 50 + 50 + 50 + 0) / 8 = 56.
    assert_eq!(manager.get_component_states().unwrap().cpu_util, 56);
}

#[test]
fn tick_before_init_is_rejected() {
    let mut manager = PolicyManager::new();
    let pmu = PmuManager::new();
    let mut hw = driver();
    let mut acpi = AcpiManager::new();
    assert_eq!(manager.tick(&pmu, &mut hw, &mut acpi), Err(HalError::NotInitialized));
    assert_eq!(manager.get_component_states(), Err(HalError::NotInitialized));
    assert_eq!(manager.set_mode(PolicyMode::Balanced, &mut hw), Err(HalError::NotInitialized));
}

#[test]
fn target_frequency_walks_the_band() {
    let settings = PolicySettings {
        mode: PolicyMode::Balanced,
        cpu_max_freq: 3600,
        cpu_min_freq: 800,
        turbo_enabled: true,
        perf_bias: 7,
        temp_target: 75,
    };
    assert_eq!(calculate_target_frequency(0, &settings), 800);
    assert_eq!(calculate_target_frequency(100, &settings), 3600);
    assert_eq!(calculate_target_frequency(37, &settings), 800 + 2800 * 37 / 100);
}

#[test]
fn pmu_counters_allocate_and_read() {
    let mut pmu = PmuManager::new();
    assert_eq!(pmu.enable_counter(CounterType::Cycles), Err(HalError::NotInitialized));
    pmu.init();
    let a = pmu.enable_counter(CounterType::Cycles).unwrap();
    let b = pmu.enable_counter(CounterType::Instructions).unwrap();
    assert_ne!(a, b);
    pmu.record_sample(a, 1234).unwrap();
    assert_eq!(pmu.read_counter(a), Ok(1234));
    pmu.reset_counter(a).unwrap();
    assert_eq!(pmu.read_counter(a), Ok(0));
    pmu.disable_counter(a).unwrap();
    assert_eq!(pmu.read_counter(a), Err(HalError::DeviceError));
    // Only four hardware counters exist.
    let _ = pmu.enable_counter(CounterType::CacheMisses).unwrap();
    let _ = pmu.enable_counter(CounterType::BranchMisses).unwrap();
    assert_eq!(pmu.enable_counter(CounterType::Temperature), Err(HalError::DeviceError));
}

#[test]
fn acpi_tracks_device_power_states() {
    let mut acpi = AcpiManager::new();
    assert_eq!(
        acpi.set_device_power_state(0, 1, 2, DeviceState::D1),
        Err(HalError::NotInitialized)
    );
    acpi.init();
    acpi.set_device_power_state(0, 1, 2, DeviceState::D1).unwrap();
    acpi.set_device_power_state(0, 1, 2, DeviceState::D3Cold).unwrap();
    acpi.set_device_power_state(3, 0, 0, DeviceState::D0).unwrap();
    assert_eq!(acpi.get_device_power_state(0, 1, 2), Some(DeviceState::D3Cold));
    assert_eq!(acpi.get_device_power_state(3, 0, 0), Some(DeviceState::D0));
    assert_eq!(acpi.get_device_power_state(9, 9, 9), None);
    assert_eq!(acpi.get_system_state(), Ok(vaelix::acpi::SystemState::S0));
}
