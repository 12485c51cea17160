//! Raspberry Pi models and the configuration each gets for running TARS.

pub mod embedded_interface;
pub mod hardware_monitor;
pub mod performance_tuner;
pub mod resource_optimizer;
pub mod system_config;

use vstd::prelude::*;

verus! {

broadcast use vstd::string::group_string_axioms;

/// Raspberry Pi boards that TARS knows.
#[derive(Debug, Clone, Copy, PartialEq, Eq, Structural)]
pub enum PiModel {
    Pi3B,
    Pi3BPlus,
    Pi4B2GB,
    Pi4B4GB,
    Pi4B8GB,
    Pi5,
    PiZero2W,
    Unknown,
}

/// CPU frequency governors of the Linux kernel.
#[derive(Debug, Clone, Copy, PartialEq, Eq, Structural)]
pub enum CpuGovernor {
    Performance,
    Powersave,
    Ondemand,
    Conservative,
    Schedutil,
}

/// The overall trade-off between speed and power.
#[derive(Debug, Clone, Copy, PartialEq, Eq, Structural)]
pub enum PerformanceProfile {
    MaxPerformance,
    Balanced,
    PowerSaver,
    TarsOptimized,
}

/// Power settings of the board.
#[derive(Debug, Clone, Copy, PartialEq, Eq, Structural)]
pub struct PowerManagement {
    pub cpu_governor: CpuGovernor,
    pub undervolt_enabled: bool,
    pub usb_power_limit: bool,
    pub hdmi_power_save: bool,
}

/// Network throughput and connection count.
#[derive(Debug, Clone, Copy, PartialEq, Eq, Structural)]
pub struct NetworkMetrics {
    pub rx_bytes_per_sec: u64,
    pub tx_bytes_per_sec: u64,
    pub active_connections: u32,
}

/// The resources TARS may use on a board. The throttling temperature is in
/// whole degrees Celsius.
#[derive(Debug, Clone, Copy, PartialEq, Eq, Structural)]
pub struct RaspberryPiConfig {
    pub model: PiModel,
    pub memory_limit_mb: u32,
    pub cpu_cores: u8,
    pub gpu_memory_split: u32,
    pub thermal_throttle_temp: u32,
    pub power_management: PowerManagement,
    pub performance_profile: PerformanceProfile,
}

/// The configuration each model starts from.
pub open spec fn model_defaults(model: PiModel) -> RaspberryPiConfig {
    match model {
        PiModel::Pi4B8GB => RaspberryPiConfig {
            model,
            memory_limit_mb: 7168,
            cpu_cores: 4,
            gpu_memory_split: 128,
            thermal_throttle_temp: 80,
            power_management: PowerManagement {
                cpu_governor: CpuGovernor::Performance,
                undervolt_enabled: false,
                usb_power_limit: false,
                hdmi_power_save: true,
            },
            performance_profile: PerformanceProfile::TarsOptimized,
        },
        PiModel::Pi4B4GB => RaspberryPiConfig {
            model,
            memory_limit_mb: 3072,
            cpu_cores: 4,
            gpu_memory_split: 64,
            thermal_throttle_temp: 75,
            power_management: PowerManagement {
                cpu_governor: CpuGovernor::Ondemand,
                undervolt_enabled: false,
                usb_power_limit: false,
                hdmi_power_save: true,
            },
            performance_profile: PerformanceProfile::Balanced,
        },
        PiModel::Pi4B2GB => RaspberryPiConfig {
            model,
            memory_limit_mb: 1536,
            cpu_cores: 4,
            gpu_memory_split: 64,
            thermal_throttle_temp: 70,
            power_management: PowerManagement {
                cpu_governor: CpuGovernor::Conservative,
                undervolt_enabled: true,
                usb_power_limit: true,
                hdmi_power_save: true,
            },
            performance_profile: PerformanceProfile::PowerSaver,
        },
        PiModel::PiZero2W => RaspberryPiConfig {
            model,
            memory_limit_mb: 384,
            cpu_cores: 4,
            gpu_memory_split: 16,
            thermal_throttle_temp: 65,
            power_management: PowerManagement {
                cpu_governor: CpuGovernor::Powersave,
                undervolt_enabled: true,
                usb_power_limit: true,
                hdmi_power_save: true,
            },
            performance_profile: PerformanceProfile::PowerSaver,
        },
        _ => RaspberryPiConfig {
            model,
            memory_limit_mb: 1024,
            cpu_cores: 4,
            gpu_memory_split: 64,
            thermal_throttle_temp: 70,
            power_management: PowerManagement {
                cpu_governor: CpuGovernor::Ondemand,
                undervolt_enabled: false,
                usb_power_limit: false,
                hdmi_power_save: true,
            },
            performance_profile: PerformanceProfile::Balanced,
        },
    }
}

/// What tuning for TARS makes of a configuration.
pub open spec fn tuned_for_tars(c: RaspberryPiConfig) -> RaspberryPiConfig {
    match c.model {
        PiModel::Pi4B8GB => RaspberryPiConfig {
            performance_profile: PerformanceProfile::TarsOptimized,
            memory_limit_mb: 6144,
            gpu_memory_split: 256,
            ..c
        },
        PiModel::Pi4B4GB => RaspberryPiConfig {
            performance_profile: PerformanceProfile::TarsOptimized,
            memory_limit_mb: 2560,
            gpu_memory_split: 128,
            power_management: PowerManagement { cpu_governor: CpuGovernor::Schedutil, ..c.power_management },
            ..c
        },
        _ => RaspberryPiConfig { performance_profile: PerformanceProfile::PowerSaver, ..c },
    }
}

/// TARS's verdict on a board and profile.
pub open spec fn pi_assessment(model: PiModel, profile: PerformanceProfile) -> Seq<char> {
    if model == PiModel::Pi4B8GB && profile == PerformanceProfile::TarsOptimized {
        "TARS: Raspberry Pi 4B 8GB detected, Cooper. Optimal configuration for full TARS capabilities. All systems ready for deployment. Mission focus: 100%"@
    } else if model == PiModel::Pi4B4GB && profile == PerformanceProfile::TarsOptimized {
        "TARS: Pi 4B 4GB configured for TARS operation. Good performance expected with memory management active. Like a well-tuned spacecraft. Humor setting: 75%"@
    } else if model == PiModel::Pi4B2GB {
        "TARS: Pi 4B 2GB detected. Performance will be limited but functional. It's like running on backup power - doable but not ideal. Honesty setting: 90%"@
    } else if model == PiModel::PiZero2W {
        "TARS: Pi Zero 2W detected. Minimal TARS functionality available. This is like trying to run a space mission from a calculator - possible but challenging. Sarcasm setting: 30%"@
    } else {
        "TARS: Raspberry Pi model detected. Configuration optimized for available resources. Performance may vary based on hardware specifications. Mission adaptability: 100%"@
    }
}

impl RaspberryPiConfig {
    /// The board TARS assumes it runs on: a Pi 4B with 4 GB.
    pub fn detect_model() -> (m: PiModel)
        ensures
            m == PiModel::Pi4B4GB,
    {
        PiModel::Pi4B4GB
    }

    /// The starting configuration of a model.
    pub fn default_for_model(model: &PiModel) -> (c: Self)
        ensures
            c == model_defaults(*model),
    {
        match model {
            PiModel::Pi4B8GB => RaspberryPiConfig {
                model: *model,
                memory_limit_mb: 7168,
                cpu_cores: 4,
                gpu_memory_split: 128,
                thermal_throttle_temp: 80,
                power_management: PowerManagement {
                    cpu_governor: CpuGovernor::Performance,
                    undervolt_enabled: false,
                    usb_power_limit: false,
                    hdmi_power_save: true,
                },
                performance_profile: PerformanceProfile::TarsOptimized,
            },
            PiModel::Pi4B4GB => RaspberryPiConfig {
                model: *model,
                memory_limit_mb: 3072,
                cpu_cores: 4,
                gpu_memory_split: 64,
                thermal_throttle_temp: 75,
                power_management: PowerManagement {
                    cpu_governor: CpuGovernor::Ondemand,
                    undervolt_enabled: false,
                    usb_power_limit: false,
                    hdmi_power_save: true,
                },
                performance_profile: PerformanceProfile::Balanced,
            },
            PiModel::Pi4B2GB => RaspberryPiConfig {
                model: *model,
                memory_limit_mb: 1536,
                cpu_cores: 4,
                gpu_memory_split: 64,
                thermal_throttle_temp: 70,
                power_management: PowerManagement {
                    cpu_governor: CpuGovernor::Conservative,
                    undervolt_enabled: true,
                    usb_power_limit: true,
                    hdmi_power_save: true,
                },
                performance_profile: PerformanceProfile::PowerSaver,
            },
            PiModel::PiZero2W => RaspberryPiConfig {
                model: *model,
                memory_limit_mb: 384,
                cpu_cores: 4,
                gpu_memory_split: 16,
                thermal_throttle_temp: 65,
                power_management: PowerManagement {
                    cpu_governor: CpuGovernor::Powersave,
                    undervolt_enabled: true,
                    usb_power_limit: true,
                    hdmi_power_save: true,
                },
                performance_profile: PerformanceProfile::PowerSaver,
            },
            _ => RaspberryPiConfig {
                model: *model,
                memory_limit_mb: 1024,
                cpu_cores: 4,
                gpu_memory_split: 64,
                thermal_throttle_temp: 70,
                power_management: PowerManagement {
                    cpu_governor: CpuGovernor::Ondemand,
                    undervolt_enabled: false,
                    usb_power_limit: false,
                    hdmi_power_save: true,
                },
                performance_profile: PerformanceProfile::Balanced,
            },
        }
    }

    /// Tunes the configuration for TARS: larger memory and GPU shares on the
    /// 4B boards, the power-saving profile on every other board.
    pub fn optimize_for_tars(&mut self)
        ensures
            *final(self) == tuned_for_tars(*old(self)),
    {
        match self.model {
            PiModel::Pi4B8GB => {
                self.performance_profile = PerformanceProfile::TarsOptimized;
                self.memory_limit_mb = 6144;
                self.gpu_memory_split = 256;
            },
            PiModel::Pi4B4GB => {
                self.performance_profile = PerformanceProfile::TarsOptimized;
                self.memory_limit_mb = 2560;
                self.gpu_memory_split = 128;
                self.power_management.cpu_governor = CpuGovernor::Schedutil;
            },
            _ => {
                self.performance_profile = PerformanceProfile::PowerSaver;
            },
        }
    }

    /// TARS's verdict on this board and profile.
    pub fn get_tars_assessment(&self) -> (s: String)
        ensures
            s@ == pi_assessment(self.model, self.performance_profile),
    {
        let tuned = self.performance_profile == PerformanceProfile::TarsOptimized;
        if self.model == PiModel::Pi4B8GB && tuned {
            String::from_str("TARS: Raspberry Pi 4B 8GB detected, Cooper. Optimal configuration for full TARS capabilities. All systems ready for deployment. Mission focus: 100%")
        } else if self.model == PiModel::Pi4B4GB && tuned {
            String::from_str("TARS: Pi 4B 4GB configured for TARS operation. Good performance expected with memory management active. Like a well-tuned spacecraft. Humor setting: 75%")
        } else if self.model == PiModel::Pi4B2GB {
            String::from_str("TARS: Pi 4B 2GB detected. Performance will be limited but functional. It's like running on backup power - doable but not ideal. Honesty setting: 90%")
        } else if self.model == PiModel::PiZero2W {
            String::from_str("TARS: Pi Zero 2W detected. Minimal TARS functionality available. This is like trying to run a space mission from a calculator - possible but challenging. Sarcasm setting: 30%")
        } else {
            String::from_str("TARS: Raspberry Pi model detected. Configuration optimized for available resources. Performance may vary based on hardware specifications. Mission adaptability: 100%")
        }
    }
}

impl Default for RaspberryPiConfig {
    fn default() -> (c: Self)
        ensures
            c == model_defaults(PiModel::Pi4B4GB),
    {
        let model = RaspberryPiConfig::detect_model();
        RaspberryPiConfig::default_for_model(&model)
    }
}

/// Tuning for TARS is idempotent: a second pass changes nothing.
pub proof fn law_tuning_is_idempotent(c: RaspberryPiConfig)
    ensures
        tuned_for_tars(tuned_for_tars(c)) == tuned_for_tars(c),
{
}

/// Tuning for TARS never changes the board, the core count or the
/// throttling temperature.
pub proof fn law_tuning_keeps_hardware(c: RaspberryPiConfig)
    ensures
        tuned_for_tars(c).model == c.model,
        tuned_for_tars(c).cpu_cores == c.cpu_cores,
        tuned_for_tars(c).thermal_throttle_temp == c.thermal_throttle_temp,
{
}

/// Every model's defaults name that model and keep memory for the system:
/// the limit stays under 8 GB.
pub proof fn law_defaults_name_their_model(model: PiModel)
    ensures
        model_defaults(model).model == model,
        model_defaults(model).memory_limit_mb < 8192,
        model_defaults(model).cpu_cores == 4,
{
}

} // verus!
