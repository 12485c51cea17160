use gsteng::raspberry_pi::embedded_interface::{health_assessment, EmbeddedInterface, LEDColor, LEDStatus};
use gsteng::raspberry_pi::hardware_monitor::HardwareMonitor;
use gsteng::raspberry_pi::performance_tuner::{PerformanceTuner, ThrottlingPolicy};
use gsteng::raspberry_pi::resource_optimizer::ResourceOptimizer;
use gsteng::raspberry_pi::system_config::SystemConfigManager;
use gsteng::raspberry_pi::{CpuGovernor, PerformanceProfile, PiModel, PowerManagement, RaspberryPiConfig};

#[test]
fn test_embedded_interface_creation() {
    let interface = EmbeddedInterface::new();
    assert_eq!(interface.gpio_controller.available_pins.len(), 0);
    assert!(!interface.hardware_watchdog.enabled);
}

#[test]
fn test_gpio_initialization() {
    let mut interface = EmbeddedInterface::new();
    let config = RaspberryPiConfig::default_for_model(&PiModel::Pi4B4GB);
    let result = interface.initialize_gpio(&config);
    assert!(result.is_ok());
    assert!(!interface.gpio_controller.available_pins.is_empty());
}

#[test]
fn test_i2c_initialization() {
    let mut interface = EmbeddedInterface::new();
    let config = RaspberryPiConfig::default_for_model(&PiModel::Pi4B4GB);
    let result = interface.initialize_i2c(&config);
    assert!(result.is_ok());
    assert!(interface.i2c_interfaces.contains_key(&1));
}

#[test]
fn test_watchdog_feeding() {
    let mut interface = EmbeddedInterface::new();
    interface.hardware_watchdog.enabled = true;
    let result = interface.feed_watchdog();
    assert!(result.is_ok());
    assert!(interface.hardware_watchdog.last_feed.is_some());
}

#[test]
fn watchdog_feeding_refused_when_disabled() {
    let mut interface = EmbeddedInterface::new();
    assert!(interface.feed_watchdog().is_err());
    assert!(interface.hardware_watchdog.last_feed.is_none());
}

#[test]
fn test_led_control() {
    let mut interface = EmbeddedInterface::new();
    interface.led_controller.status_leds.insert(
        "test".to_string(),
        LEDStatus { color: LEDColor::Off, brightness: 0, blink_pattern: None, enabled: false },
    );
    let result = interface.set_led_status("test", LEDColor::Green, 128);
    assert!(result.is_ok());
    let led = interface.led_controller.status_leds.get("test").unwrap();
    assert!(matches!(led.color, LEDColor::Green));
    assert_eq!(led.brightness, 128);
}

#[test]
fn led_control_refuses_unknown_led() {
    let mut interface = EmbeddedInterface::new();
    assert!(interface.set_led_status("missing", LEDColor::Red, 10).is_err());
}

#[test]
fn test_health_reporting() {
    assert!(health_assessment(true, false).contains("TARS:"));
    assert!(health_assessment(false, true).contains("TARS:"));
}

#[test]
fn test_hardware_monitor_creation() {
    let monitor = HardwareMonitor::new();
    assert!(!monitor.monitoring_active);
    assert_eq!(monitor.sample_interval_ms, 1000);
}

#[test]
fn test_tars_assessment_generation() {
    let monitor = HardwareMonitor::new();
    let assessment = monitor.generate_tars_assessment(20, 30, 60, false);
    assert!(assessment.contains("TARS:"));
    let critical_assessment = monitor.generate_tars_assessment(95, 98, 90, true);
    assert!(assessment.contains("TARS:"));
    assert!(critical_assessment.contains("throttling") || critical_assessment.contains("stress"));
}

#[test]
fn assessment_thresholds() {
    let monitor = HardwareMonitor::new();
    assert!(monitor.generate_tars_assessment(20, 30, 60, false).contains("optimal"));
    assert!(monitor.generate_tars_assessment(95, 30, 60, false).contains("severe stress"));
    assert!(monitor.generate_tars_assessment(75, 30, 60, false).contains("Moderate"));
    assert!(monitor.generate_tars_assessment(50, 60, 70, false).contains("status normal"));
    assert!(monitor.generate_tars_assessment(50, 60, 81, true).contains("throttling active"));
}

#[test]
fn test_health_summary() {
    let monitor = HardwareMonitor::new();
    let summary = monitor.get_health_summary();
    assert!(summary.contains_key("monitoring_status"));
    assert!(summary.contains_key("tars_status"));
    assert_eq!(summary.get("monitoring_status").unwrap(), "Inactive");
}

#[test]
fn monitor_history_keeps_the_newest_hundred() {
    let mut monitor = HardwareMonitor::new();
    for i in 0..150u32 {
        monitor.record_warning(format!("warning {}", i));
    }
    let recent = monitor.get_recent_warnings();
    assert_eq!(recent.len(), 100);
    assert_eq!(recent[0], "warning 50");
    assert_eq!(recent[99], "warning 149");
}

#[test]
fn test_pi_config_creation() {
    let config = RaspberryPiConfig::default_for_model(&PiModel::Pi4B4GB);
    assert_eq!(config.memory_limit_mb, 3072);
    assert_eq!(config.cpu_cores, 4);
}

#[test]
fn test_tars_optimization() {
    let mut config = RaspberryPiConfig::default_for_model(&PiModel::Pi4B8GB);
    config.optimize_for_tars();
    assert_eq!(config.performance_profile, PerformanceProfile::TarsOptimized);
    assert_eq!(config.memory_limit_mb, 6144);
}

#[test]
fn tars_optimization_is_idempotent() {
    for model in [PiModel::Pi4B8GB, PiModel::Pi4B4GB, PiModel::Pi3B, PiModel::PiZero2W] {
        let mut once = RaspberryPiConfig::default_for_model(&model);
        once.optimize_for_tars();
        let mut twice = once.clone();
        twice.optimize_for_tars();
        assert_eq!(once.memory_limit_mb, twice.memory_limit_mb);
        assert_eq!(once.gpu_memory_split, twice.gpu_memory_split);
        assert_eq!(once.performance_profile, twice.performance_profile);
        assert_eq!(once.power_management.cpu_governor, twice.power_management.cpu_governor);
        assert_eq!(once.model, model);
    }
}

#[test]
fn four_gb_tuning_uses_schedutil() {
    let mut config = RaspberryPiConfig::default_for_model(&PiModel::Pi4B4GB);
    config.optimize_for_tars();
    assert_eq!(config.memory_limit_mb, 2560);
    assert_eq!(config.gpu_memory_split, 128);
    assert_eq!(config.power_management.cpu_governor, CpuGovernor::Schedutil);
}

#[test]
fn test_tars_assessment() {
    let config = RaspberryPiConfig::default_for_model(&PiModel::PiZero2W);
    let assessment = config.get_tars_assessment();
    assert!(assessment.contains("TARS:"));
    assert!(assessment.contains("Zero 2W"));
}

#[test]
fn default_config_targets_four_gb_pi() {
    let config = RaspberryPiConfig::default();
    assert_eq!(config.model, PiModel::Pi4B4GB);
    assert_eq!(config.gpu_memory_split, 64);
    assert_eq!(config.thermal_throttle_temp, 75);
}

#[test]
fn test_performance_tuner_creation() {
    let tuner = PerformanceTuner::new();
    assert_eq!(tuner.current_profile, PerformanceProfile::Balanced);
    assert!(!tuner.active_tuning_rules.is_empty());
}

#[test]
fn test_configuration_for_tars_profile() {
    let mut tuner = PerformanceTuner::new();
    let config = RaspberryPiConfig {
        model: PiModel::Pi4B4GB,
        memory_limit_mb: 4096,
        cpu_cores: 4,
        gpu_memory_split: 128,
        thermal_throttle_temp: 75,
        power_management: PowerManagement {
            cpu_governor: CpuGovernor::Schedutil,
            undervolt_enabled: false,
            usb_power_limit: false,
            hdmi_power_save: true,
        },
        performance_profile: PerformanceProfile::TarsOptimized,
    };
    let results = tuner.configure_for_pi(&config, [true, true, true]).unwrap();
    assert!(!results.is_empty());
    assert_eq!(tuner.current_profile, PerformanceProfile::TarsOptimized);
    assert_eq!(tuner.thermal_management.throttling_policy, ThrottlingPolicy::TarsProtection);
}

#[test]
fn test_tuning_summary() {
    let tuner = PerformanceTuner::new();
    let summary = tuner.get_current_tuning_summary();
    assert!(summary.contains_key("performance_profile"));
    assert!(summary.contains_key("tars_assessment"));
}

#[test]
fn test_resource_optimizer_creation() {
    let optimizer = ResourceOptimizer::new();
    assert!(!optimizer.active_optimizations.is_empty());
    assert_eq!(optimizer.memory_management.swap_tendency, 60);
}

#[test]
fn test_tars_optimization_configuration() {
    let mut optimizer = ResourceOptimizer::new();
    let config = RaspberryPiConfig::default_for_model(&PiModel::Pi4B4GB);
    optimizer.optimize_for_config(&config);
    let enabled_count = optimizer.active_optimizations.iter().filter(|r| r.enabled).count();
    assert!(enabled_count > 0);
}

#[test]
fn test_tars_optimization_report() {
    let optimizer = ResourceOptimizer::new();
    let report = optimizer.get_tars_optimization_report();
    assert!(report.contains("TARS:"));
    assert!(report.contains("optimization"));
}

#[test]
fn test_system_config_creation() {
    let config_manager = SystemConfigManager::new();
    assert_eq!(config_manager.config_file_path, "/boot/config.txt");
    assert_eq!(config_manager.boot_config.gpu_memory_split, 128);
}

#[test]
fn test_boot_config_for_pi4_8gb() {
    let mut config_manager = SystemConfigManager::new();
    let pi_config = RaspberryPiConfig::default_for_model(&PiModel::Pi4B8GB);
    config_manager.configure_boot_settings(&pi_config);
    assert_eq!(config_manager.boot_config.arm_freq, Some(2000));
    assert_eq!(config_manager.boot_config.gpu_freq, Some(750));
}

#[test]
fn test_system_limits_configuration() {
    let mut config_manager = SystemConfigManager::new();
    let pi_config = RaspberryPiConfig {
        model: PiModel::Pi4B8GB,
        memory_limit_mb: 8192,
        cpu_cores: 4,
        gpu_memory_split: 256,
        thermal_throttle_temp: 80,
        power_management: PowerManagement {
            cpu_governor: CpuGovernor::Performance,
            undervolt_enabled: false,
            usb_power_limit: false,
            hdmi_power_save: true,
        },
        performance_profile: PerformanceProfile::TarsOptimized,
    };
    config_manager.configure_system_limits(&pi_config);
    assert_eq!(config_manager.system_limits.max_open_files, 65536);
    assert_eq!(config_manager.system_limits.nice_limit, -20);
}

#[test]
fn test_tars_services_configuration() {
    let mut config_manager = SystemConfigManager::new();
    let pi_config = RaspberryPiConfig::default_for_model(&PiModel::Pi4B4GB);
    config_manager.configure_tars_services(&pi_config);
    assert_eq!(config_manager.service_configs.len(), 4);
    assert!(config_manager.service_configs.iter().any(|s| s.service_name == "tars-main"));
}

#[test]
fn test_config_summary() {
    let config_manager = SystemConfigManager::new();
    let summary = config_manager.get_current_config_summary();
    assert!(summary.contains_key("gpu_memory"));
    assert!(summary.contains_key("tars_assessment"));
}

#[test]
fn config_summary_values() {
    let config_manager = SystemConfigManager::new();
    let summary = config_manager.get_current_config_summary();
    assert_eq!(summary.get("gpu_memory").unwrap(), "128MB");
    assert_eq!(summary.get("cpu_frequency").unwrap(), "default");
}

#[test]
fn limits_grow_with_memory() {
    let mut small = SystemConfigManager::new();
    let mut large = SystemConfigManager::new();
    let mut config = RaspberryPiConfig::default_for_model(&PiModel::Pi4B2GB);
    config.memory_limit_mb = 1024;
    small.configure_system_limits(&config);
    config.memory_limit_mb = 8192;
    large.configure_system_limits(&config);
    assert_eq!(small.system_limits.max_open_files, 8192);
    assert!(small.system_limits.max_open_files <= large.system_limits.max_open_files);
    assert!(small.system_limits.max_processes <= large.system_limits.max_processes);
    assert!(large.system_limits.nice_limit <= small.system_limits.nice_limit);
}

#[test]
fn boot_settings_settle_after_one_pass() {
    let mut once = SystemConfigManager::new();
    let config = RaspberryPiConfig::default_for_model(&PiModel::Pi4B8GB);
    once.configure_boot_settings(&config);
    let first = once.boot_config.clone();
    once.configure_boot_settings(&config);
    assert_eq!(once.boot_config.over_voltage, first.over_voltage);
    assert_eq!(once.boot_config.arm_freq, first.arm_freq);
    assert_eq!(once.boot_config.dtoverlay, first.dtoverlay);
}

#[test]
fn tars_profile_thresholds_rise() {
    let mut tuner = PerformanceTuner::new();
    let config = RaspberryPiConfig {
        performance_profile: PerformanceProfile::TarsOptimized,
        ..RaspberryPiConfig::default_for_model(&PiModel::Pi4B4GB)
    };
    tuner.apply_performance_profile(&config);
    let temps: Vec<u32> = tuner.thermal_management.temp_thresholds.iter().map(|t| t.temperature).collect();
    assert!(!temps.is_empty());
    assert!(temps.windows(2).all(|w| w[0] < w[1]));
    assert!(tuner.frequency_scaling.min_freq_mhz <= tuner.frequency_scaling.max_freq_mhz);
}
