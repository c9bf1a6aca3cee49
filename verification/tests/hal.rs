use vaelix::audio::{Audio, AudioFormat, InputDevice, OutputDevice};
use vaelix::bluetooth::{Bluetooth, ConnectionType, PowerMode};
use vaelix::cpu::{Cpu, PerfState};
use vaelix::cpu_hybrid::{driver, CoreState, PowerConfig};
use vaelix::firmware::{Firmware, FirmwareDesc, MAX_FIRMWARE_SIZE};
use vaelix::gpu::{Gpu, PowerState as GpuPowerState};
use vaelix::hal::HalError;
use vaelix::net::{Interface, Net, SecurityType, WifiConfig};
use vaelix::runtime_fw::{is_firmware_available, RuntimeFirmware};
use vaelix::storage::{OperationMode, PowerState as StoragePowerState, Storage};

#[test]
fn hal_initializes_all_subsystems() {
    let mut hal = vaelix::hal::new();
    vaelix::hal::init(&mut hal).unwrap();
    assert!(hal.cpu.initialized);
    assert!(hal.storage.initialized);
    assert!(hal.gpu.initialized);
    assert!(hal.audio.initialized);
    assert!(hal.net.wifi_initialized);
    assert!(hal.bluetooth.initialized);
    vaelix::hal::shutdown(&mut hal).unwrap();
    assert!(!hal.cpu.initialized);
    assert!(!hal.audio.initialized);
}

#[test]
fn audio_volume_clamps_to_100() {
    let mut audio = Audio::new();
    assert_eq!(audio.set_volume(40), Err(HalError::NotInitialized));
    audio.init().unwrap();
    assert_eq!(audio.get_volume(), Ok(50));
    audio.set_volume(70).unwrap();
    assert_eq!(audio.get_volume(), Ok(70));
    audio.set_volume(200).unwrap();
    assert_eq!(audio.get_volume(), Ok(100));
    audio.set_output_device(OutputDevice::Headphones).unwrap();
    audio.set_input_device(InputDevice::HeadsetMic).unwrap();
    audio.create_stream(AudioFormat { channels: 2, sample_rate: 48000, bits_per_sample: 24 })
        .unwrap();
    let formats = audio.get_supported_formats().unwrap();
    assert_eq!(formats.len(), 3);
    assert_eq!(formats[0].sample_rate, 44100);
    assert_eq!(formats[2].bits_per_sample, 32);
}

#[test]
fn bluetooth_power_follows_mode() {
    let mut bt = Bluetooth::new();
    assert_eq!(bt.set_power_mode(PowerMode::On), Err(HalError::NotInitialized));
    bt.init().unwrap();
    assert!(!bt.is_powered());
    bt.set_power_mode(PowerMode::Discovery).unwrap();
    assert!(bt.is_powered());
    bt.start_discovery(ConnectionType::LowEnergy).unwrap();
    bt.stop_discovery().unwrap();
    let caps = bt.get_capabilities().unwrap();
    assert_eq!(caps.version, (5, 2));
    assert_eq!(caps.max_connections, 7);
    assert_eq!(caps.max_data_rate, 3_000_000);
    bt.set_power_mode(PowerMode::Off).unwrap();
    assert_eq!(bt.start_discovery(ConnectionType::Classic), Err(HalError::NotInitialized));
    bt.shutdown().unwrap();
    assert!(!bt.is_powered());
}

#[test]
fn cpu_reports_features_and_states() {
    let mut cpu = Cpu::new();
    cpu.init().unwrap();
    cpu.set_perf_state(PerfState::Performance).unwrap();
    let features = cpu.get_features().unwrap();
    assert!(features.has_avx2 && features.has_vmx);
    cpu.shutdown().unwrap();
    assert!(matches!(cpu.perf_state, PerfState::PowerSave));
}

#[test]
fn gpu_tracks_resolution() {
    let mut gpu = Gpu::new();
    gpu.init().unwrap();
    assert_eq!(gpu.get_resolution(), (1920, 1080));
    gpu.set_resolution(1280, 720).unwrap();
    assert_eq!(gpu.get_resolution(), (1280, 720));
    let caps = gpu.get_capabilities().unwrap();
    assert_eq!(caps.max_resolution, (1920, 1080));
    assert!(caps.supports_vulkan);
    gpu.set_power_state(GpuPowerState::High).unwrap();
    gpu.shutdown().unwrap();
    assert!(matches!(gpu.power_state, GpuPowerState::Low));
}

#[test]
fn net_interfaces_report_status() {
    let mut net = Net::new();
    assert_eq!(net.get_status(Interface::WiFi), Ok(false));
    assert_eq!(net.get_stats(Interface::WiFi), Err(HalError::NotInitialized));
    net.init().unwrap();
    assert_eq!(net.get_status(Interface::WiFi), Ok(true));
    assert_eq!(net.get_status(Interface::Ethernet), Ok(true));
    let stats = net.get_stats(Interface::Ethernet).unwrap();
    assert_eq!(stats.bytes_received, 0);
    assert_eq!(stats.errors_out, 0);
    let config = WifiConfig {
        ssid: [0u8; 32],
        password: [0u8; 64],
        security: SecurityType::WPA3Personal,
    };
    net.configure_wifi(config).unwrap();
    net.set_power_saving(Interface::WiFi, true).unwrap();
    net.shutdown().unwrap();
    assert_eq!(net.set_power_saving(Interface::WiFi, true), Err(HalError::NotInitialized));
}

#[test]
fn storage_reports_space_and_modes() {
    let mut storage = Storage::new();
    assert_eq!(storage.get_available_space(), Err(HalError::NotInitialized));
    storage.init().unwrap();
    assert_eq!(storage.get_available_space(), Ok(256_060_514_304));
    let caps = storage.get_capabilities().unwrap();
    assert_eq!(caps.total_size, 256_060_514_304);
    assert!(caps.supports_trim && caps.supports_smart);
    storage.set_operation_mode(OperationMode::Performance).unwrap();
    storage.set_power_state(StoragePowerState::LowPower).unwrap();
    storage.shutdown().unwrap();
    assert!(matches!(storage.power_state, StoragePowerState::Standby));
}

#[test]
fn hybrid_driver_tracks_core_state() {
    let mut hw = driver();
    assert_eq!(hw.get_core_state(0), Err(HalError::NotInitialized));
    hw.init();
    let topology = hw.get_topology();
    assert_eq!(topology.len(), 8);
    assert_eq!(topology[0].core_id, 0);
    assert_eq!(topology[7].core_id, 5);
    assert_eq!(
        hw.get_core_state(3),
        Ok(CoreState { enabled: true, frequency: 2800, temperature: 45, utilization: 50 })
    );
    assert_eq!(hw.get_core_state(6), Err(HalError::CoreNotFound));
    hw.set_core_frequency(3, 1200).unwrap();
    assert_eq!(hw.get_core_state(3).unwrap().frequency, 1200);
    hw.set_turbo_boost(false).unwrap();
    assert!(!hw.turbo_enabled);
    hw.set_power_config(PowerConfig { min_freq: 400, max_freq: 4400, turbo_enabled: true })
        .unwrap();
    assert_eq!(hw.power_config.min_freq, 400);
    hw.set_perf_bias(9).unwrap();
    assert_eq!(hw.perf_bias, 9);
    hw.set_core_utilization(2, 88).unwrap();
    assert_eq!(hw.get_core_state(2).unwrap().utilization, 88);
}

#[test]
fn firmware_load_respects_size_limit() {
    let desc = FirmwareDesc { name: "rtw8852b_fw.bin", device_id: 0xb852, version: 1, flags: 0 };
    let mut fw = Firmware::new(desc);
    assert!(!fw.is_loaded());
    assert!(fw.data().is_none());
    fw.load(&vec![1, 2, 3]).unwrap();
    assert!(fw.is_loaded());
    assert_eq!(fw.data().unwrap(), &vec![1, 2, 3]);
    assert!(MAX_FIRMWARE_SIZE == 16 * 1024 * 1024);
    let oversized = vec![0u8; MAX_FIRMWARE_SIZE + 1];
    assert_eq!(fw.load(&oversized), Err(HalError::BufferError));
    // The rejected load leaves the previous data in place.
    assert_eq!(fw.data().unwrap(), &vec![1, 2, 3]);
}

#[test]
fn runtime_firmware_loads_known_images() {
    let mut wifi = RuntimeFirmware::new("rtw8852b_fw.bin");
    assert!(!wifi.is_loaded());
    wifi.load().unwrap();
    let data = wifi.data().unwrap();
    assert_eq!(data.len(), 1024);
    assert!(data.iter().all(|b| *b == 0xFF));
    assert_eq!(wifi.name(), "rtw8852b_fw.bin");

    let mut gpu = RuntimeFirmware::new("adlp_dmc.bin");
    gpu.load().unwrap();
    assert!(gpu.data().unwrap().iter().all(|b| *b == 0xEE));

    let mut other = RuntimeFirmware::new("unknown.bin");
    assert_eq!(other.load(), Err(HalError::DeviceError));

    assert!(is_firmware_available(&String::from("rtw8852b_fw.bin")));
    assert!(is_firmware_available(&String::from("adlp_dmc.bin")));
    assert!(!is_firmware_available(&String::from("other.bin")));
}
