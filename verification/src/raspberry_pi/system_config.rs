//! Boot, service and limit configuration of the board: what TARS writes to
//! `/boot/config.txt`, to the limits file and to its systemd units.

use crate::raspberry_pi::{PiModel, RaspberryPiConfig};
use crate::text::{
    decimal, fmt_i64, fmt_u64, join2, join3, join_strings, join_with, push_line, signed_decimal,
    strings_view,
};
use vstd::hash_map::StringHashMap;
use vstd::prelude::*;

verus! {

broadcast use vstd::string::group_string_axioms;

/// Settings of `/boot/config.txt`.
#[derive(Debug, Clone)]
pub struct BootConfig {
    pub gpu_memory_split: u32,
    pub arm_freq: Option<u32>,
    pub gpu_freq: Option<u32>,
    pub sdram_freq: Option<u32>,
    pub over_voltage: Option<i8>,
    pub temp_limit: u32,
    pub hdmi_force_hotplug: bool,
    pub hdmi_drive: u8,
    pub enable_uart: bool,
    pub dtoverlay: Vec<String>,
}

/// Per-user resource limits.
#[derive(Debug, Clone, Copy, PartialEq, Eq, Structural)]
pub struct SystemLimits {
    pub max_open_files: u32,
    pub max_processes: u32,
    pub max_memory_mb: u32,
    pub nice_limit: i8,
    pub rtprio_limit: u8,
}

/// When systemd restarts a service.
#[derive(Debug, Clone, Copy, PartialEq, Eq, Structural)]
pub enum RestartPolicy {
    Always,
    OnFailure,
    Never,
    UnlessStopped,
}

/// One TARS service and its resource limits.
#[derive(Debug, Clone)]
pub struct ServiceConfig {
    pub service_name: String,
    pub enabled: bool,
    pub priority: i8,
    pub memory_limit_mb: Option<u32>,
    pub cpu_limit_percent: Option<u8>,
    pub restart_policy: RestartPolicy,
}

/// The whole system configuration that TARS manages.
#[derive(Debug, Clone)]
pub struct SystemConfigManager {
    pub config_file_path: String,
    pub boot_config: BootConfig,
    pub system_limits: SystemLimits,
    pub service_configs: Vec<ServiceConfig>,
}

/// The stock boot configuration: 128 MB for the GPU, 85 degrees, HDMI drive
/// mode 2, nothing else set.
pub open spec fn is_stock_boot(b: BootConfig) -> bool {
    &&& b.gpu_memory_split == 128
    &&& b.arm_freq is None
    &&& b.gpu_freq is None
    &&& b.sdram_freq is None
    &&& b.over_voltage is None
    &&& b.temp_limit == 85
    &&& !b.hdmi_force_hotplug
    &&& b.hdmi_drive == 2
    &&& !b.enable_uart
    &&& b.dtoverlay@.len() == 0
}

/// The stock limits.
pub open spec fn stock_limits() -> SystemLimits {
    SystemLimits {
        max_open_files: 16384,
        max_processes: 1024,
        max_memory_mb: 4096,
        nice_limit: -10i8,
        rtprio_limit: 25,
    }
}

impl Default for BootConfig {
    fn default() -> (b: Self)
        ensures
            is_stock_boot(b),
    {
        BootConfig {
            gpu_memory_split: 128,
            arm_freq: None,
            gpu_freq: None,
            sdram_freq: None,
            over_voltage: None,
            temp_limit: 85,
            hdmi_force_hotplug: false,
            hdmi_drive: 2,
            enable_uart: false,
            dtoverlay: Vec::new(),
        }
    }
}

impl Default for SystemLimits {
    fn default() -> (l: Self)
        ensures
            l == stock_limits(),
    {
        SystemLimits {
            max_open_files: 16384,
            max_processes: 1024,
            max_memory_mb: 4096,
            nice_limit: -10i8,
            rtprio_limit: 25,
        }
    }
}

/// The CPU clock each model is set to, where it is set.
pub open spec fn model_arm_freq(model: PiModel) -> Option<u32> {
    match model {
        PiModel::Pi4B8GB => Some(2000),
        PiModel::Pi4B4GB => Some(1800),
        PiModel::Pi4B2GB => Some(1500),
        PiModel::PiZero2W => None,
        _ => Some(1500),
    }
}

/// The GPU clock each model is set to.
pub open spec fn model_gpu_freq(model: PiModel) -> Option<u32> {
    match model {
        PiModel::Pi4B8GB => Some(750),
        PiModel::Pi4B4GB => Some(500),
        PiModel::Pi4B2GB => Some(400),
        PiModel::PiZero2W => Some(300),
        _ => Some(400),
    }
}

/// The over-voltage step each model gets; the other models keep the one
/// they had.
pub open spec fn model_over_voltage(model: PiModel, before: Option<i8>) -> Option<i8> {
    match model {
        PiModel::Pi4B8GB => Some(6),
        PiModel::Pi4B4GB => Some(4),
        PiModel::Pi4B2GB => Some(2),
        PiModel::PiZero2W => None,
        _ => before,
    }
}

/// The device-tree overlays of the TARS hardware: I2C for the servos, SPI
/// for the sensors, a second UART.
pub open spec fn tars_overlays() -> Seq<Seq<char>> {
    seq!["i2c1=on"@, "spi=on"@, "uart5=on"@]
}

/// The limits for a memory size, by tier: 8 GB and more, 4 to 8 GB, 2 to
/// 4 GB, below 2 GB.
pub open spec fn limits_for_memory(memory_mb: u32) -> SystemLimits {
    if memory_mb >= 8192 {
        SystemLimits { max_open_files: 65536, max_processes: 4096, max_memory_mb: memory_mb, nice_limit: -20i8, rtprio_limit: 99 }
    } else if memory_mb >= 4096 {
        SystemLimits { max_open_files: 32768, max_processes: 2048, max_memory_mb: memory_mb, nice_limit: -15i8, rtprio_limit: 50 }
    } else if memory_mb >= 2048 {
        SystemLimits { max_open_files: 16384, max_processes: 1024, max_memory_mb: memory_mb, nice_limit: -10i8, rtprio_limit: 25 }
    } else {
        SystemLimits { max_open_files: 8192, max_processes: 512, max_memory_mb: memory_mb, nice_limit: -5i8, rtprio_limit: 10 }
    }
}

/// Whether `s` is the service with these settings.
pub open spec fn is_service(
    s: ServiceConfig,
    name: Seq<char>,
    priority: i8,
    memory_mb: u32,
    cpu_percent: u8,
    policy: RestartPolicy,
) -> bool {
    &&& s.service_name@ == name
    &&& s.enabled
    &&& s.priority == priority
    &&& s.memory_limit_mb == Some(memory_mb)
    &&& s.cpu_limit_percent == Some(cpu_percent)
    &&& s.restart_policy == policy
}

/// The four TARS services: main, AI models, hardware, monitoring.
pub open spec fn is_tars_service_set(v: Seq<ServiceConfig>) -> bool {
    &&& v.len() == 4
    &&& is_service(v[0], "tars-main"@, -15i8, 2048, 80, RestartPolicy::Always)
    &&& is_service(v[1], "tars-ai-models"@, -10i8, 1536, 70, RestartPolicy::OnFailure)
    &&& is_service(v[2], "tars-hardware"@, -12i8, 256, 20, RestartPolicy::Always)
    &&& is_service(v[3], "tars-monitoring"@, 0, 128, 10, RestartPolicy::Always)
}

/// A line for a setting that may be unset.
pub open spec fn optional_line(prefix: Seq<char>, v: Option<u32>) -> Seq<Seq<char>> {
    match v {
        Some(f) => seq![prefix + decimal(f as nat)],
        None => Seq::empty(),
    }
}

/// A line that stands only where a flag is set.
pub open spec fn flag_line(flag: bool, line: Seq<char>) -> Seq<Seq<char>> {
    if flag {
        seq![line]
    } else {
        Seq::empty()
    }
}

/// The `dtoverlay=` lines of the overlays.
pub open spec fn overlay_lines(overlays: Seq<Seq<char>>) -> Seq<Seq<char>> {
    overlays.map_values(|o: Seq<char>| "dtoverlay="@ + o)
}

/// The lines of `/boot/config.txt` for a boot configuration.
pub open spec fn boot_lines(b: BootConfig) -> Seq<Seq<char>> {
    seq![
        "# TARS Raspberry Pi Configuration"@,
        "# Generated automatically - do not edit manually"@,
        ""@,
        "gpu_mem="@ + decimal(b.gpu_memory_split as nat),
    ] + optional_line("arm_freq="@, b.arm_freq) + optional_line("gpu_freq="@, b.gpu_freq) + (
    match b.over_voltage {
        Some(v) => seq!["over_voltage="@ + signed_decimal(v as int)],
        None => Seq::empty(),
    }) + seq!["temp_limit="@ + decimal(b.temp_limit as nat)] + flag_line(
        b.hdmi_force_hotplug,
        "hdmi_force_hotplug=1"@,
    ) + seq!["hdmi_drive="@ + decimal(b.hdmi_drive as nat)] + flag_line(b.enable_uart, "enable_uart=1"@)
        + overlay_lines(strings_view(b.dtoverlay@))
}

/// The lines of the limits file.
pub open spec fn limits_lines(l: SystemLimits) -> Seq<Seq<char>> {
    seq![
        "# TARS System Limits Configuration"@,
        "* soft nofile "@ + decimal(l.max_open_files as nat),
        "* hard nofile "@ + decimal(l.max_open_files as nat),
        "* soft nproc "@ + decimal(l.max_processes as nat),
        "* hard nproc "@ + decimal(l.max_processes as nat),
        "tars soft nice "@ + signed_decimal(l.nice_limit as int),
        "tars hard rtprio "@ + decimal(l.rtprio_limit as nat),
    ]
}

/// The `Restart=` line of a policy.
pub open spec fn restart_line(p: RestartPolicy) -> Seq<char> {
    match p {
        RestartPolicy::Always => "Restart=always"@,
        RestartPolicy::OnFailure => "Restart=on-failure"@,
        RestartPolicy::Never => "Restart=no"@,
        RestartPolicy::UnlessStopped => "Restart=unless-stopped"@,
    }
}

/// The lines of a service's systemd unit.
pub open spec fn unit_lines(s: ServiceConfig) -> Seq<Seq<char>> {
    seq![
        "[Unit]"@,
        "Description=TARS "@ + s.service_name@,
        "After=network.target"@,
        ""@,
        "[Service]"@,
        "Type=simple"@,
        "User=tars"@,
        "Group=tars"@,
    ] + (match s.memory_limit_mb {
        Some(m) => seq!["MemoryLimit="@ + decimal(m as nat) + "M"@],
        None => Seq::empty(),
    }) + (match s.cpu_limit_percent {
        Some(c) => seq!["CPUQuota="@ + decimal(c as nat) + "%"@],
        None => Seq::empty(),
    }) + seq![restart_line(s.restart_policy), ""@, "[Install]"@, "WantedBy=multi-user.target"@]
}

/// The report of a configuration run that applied `modules` modules.
pub open spec fn config_report(modules: nat, arm_freq: Option<u32>, gpu_mem: u32) -> Seq<char> {
    let freq: u32 = match arm_freq {
        Some(f) => f,
        None => 1500,
    };
    "TARS: System configuration deployment complete, Cooper. Applied "@ + decimal(modules)
        + " configuration modules. CPU frequency: "@ + decimal(freq as nat) + "MHz, GPU memory: "@
        + decimal(gpu_mem as nat)
        + "MB. Boot parameters optimized for mission-critical operations. All systems configured for maximum operational efficiency. Mission focus: 100%"@
}

/// The boot-configuration result where no `/boot/config.txt` exists.
pub open spec fn boot_simulated_message() -> Seq<char> {
    "Boot configuration simulated (not on Pi hardware)"@
}

/// The boot-configuration result where the file exists.
pub open spec fn boot_updated_message(lines: nat) -> Seq<char> {
    "Boot configuration updated ("@ + decimal(lines) + " lines)"@
}

/// The summary value of the CPU clock.
pub open spec fn cpu_frequency_text(f: Option<u32>) -> Seq<char> {
    match f {
        Some(v) => decimal(v as nat) + "MHz"@,
        None => "default"@,
    }
}

/// The verdict that closes the configuration summary.
pub open spec fn summary_assessment() -> Seq<char> {
    "TARS: System configuration analysis complete. All parameters within operational specifications."@
}

/// The directory of a backup of `/boot/config.txt` taken at `timestamp`.
pub open spec fn backup_message(timestamp: Seq<char>) -> Seq<char> {
    "Configuration backed up to /boot/config.txt.backup."@ + timestamp
}

/// The current time in UTC as `YYYYmmdd_HHMMSS`, from
/// `chrono::Utc::now().format("%Y%m%d_%H%M%S")`. It rests on the clock: the
/// contract states nothing of it.
#[verifier::external_body]
fn utc_timestamp() -> (t: String) {
    chrono::Utc::now().format("%Y%m%d_%H%M%S").to_string()
}

fn tars_service(
    name: &str,
    priority: i8,
    memory_mb: u32,
    cpu_percent: u8,
    policy: RestartPolicy,
) -> (s: ServiceConfig)
    ensures
        is_service(s, name@, priority, memory_mb, cpu_percent, policy),
{
    ServiceConfig {
        service_name: String::from_str(name),
        enabled: true,
        priority,
        memory_limit_mb: Some(memory_mb),
        cpu_limit_percent: Some(cpu_percent),
        restart_policy: policy,
    }
}

impl SystemConfigManager {
    /// A manager of `/boot/config.txt` with stock settings and no services.
    pub fn new() -> (m: Self)
        ensures
            m.config_file_path@ == "/boot/config.txt"@,
            is_stock_boot(m.boot_config),
            m.system_limits == stock_limits(),
            m.service_configs@.len() == 0,
    {
        SystemConfigManager {
            config_file_path: String::from_str("/boot/config.txt"),
            boot_config: BootConfig::default(),
            system_limits: SystemLimits::default(),
            service_configs: Vec::new(),
        }
    }

    /// Sets the boot configuration for the board: its GPU share and
    /// throttling temperature, the clocks and over-voltage of its model,
    /// the UART on, hot-plug off and the TARS overlays.
    pub fn configure_boot_settings(&mut self, pi_config: &RaspberryPiConfig)
        ensures
            final(self).boot_config.gpu_memory_split == pi_config.gpu_memory_split,
            final(self).boot_config.temp_limit == pi_config.thermal_throttle_temp,
            final(self).boot_config.arm_freq == model_arm_freq(pi_config.model),
            final(self).boot_config.gpu_freq == model_gpu_freq(pi_config.model),
            final(self).boot_config.over_voltage == model_over_voltage(
                pi_config.model,
                old(self).boot_config.over_voltage,
            ),
            final(self).boot_config.sdram_freq == old(self).boot_config.sdram_freq,
            final(self).boot_config.hdmi_drive == old(self).boot_config.hdmi_drive,
            final(self).boot_config.enable_uart,
            !final(self).boot_config.hdmi_force_hotplug,
            strings_view(final(self).boot_config.dtoverlay@) == tars_overlays(),
            final(self).system_limits == old(self).system_limits,
            final(self).service_configs@ == old(self).service_configs@,
            final(self).config_file_path == old(self).config_file_path,
    {
        self.boot_config.gpu_memory_split = pi_config.gpu_memory_split;
        self.boot_config.temp_limit = pi_config.thermal_throttle_temp;
        match pi_config.model {
            PiModel::Pi4B8GB => {
                self.boot_config.arm_freq = Some(2000);
                self.boot_config.gpu_freq = Some(750);
                self.boot_config.over_voltage = Some(6);
            },
            PiModel::Pi4B4GB => {
                self.boot_config.arm_freq = Some(1800);
                self.boot_config.gpu_freq = Some(500);
                self.boot_config.over_voltage = Some(4);
            },
            PiModel::Pi4B2GB => {
                self.boot_config.arm_freq = Some(1500);
                self.boot_config.gpu_freq = Some(400);
                self.boot_config.over_voltage = Some(2);
            },
            PiModel::PiZero2W => {
                self.boot_config.arm_freq = None;
                self.boot_config.gpu_freq = Some(300);
                self.boot_config.over_voltage = None;
            },
            _ => {
                self.boot_config.arm_freq = Some(1500);
                self.boot_config.gpu_freq = Some(400);
            },
        }
        self.boot_config.enable_uart = true;
        self.boot_config.hdmi_force_hotplug = false;
        let mut overlays: Vec<String> = Vec::new();
        push_line(&mut overlays, String::from_str("i2c1=on"));
        push_line(&mut overlays, String::from_str("spi=on"));
        push_line(&mut overlays, String::from_str("uart5=on"));
        assert(strings_view(overlays@) =~= tars_overlays());
        self.boot_config.dtoverlay = overlays;
    }

    /// Sets the limits of the tier of the board's memory limit.
    pub fn configure_system_limits(&mut self, pi_config: &RaspberryPiConfig)
        ensures
            final(self).system_limits == limits_for_memory(pi_config.memory_limit_mb),
            final(self).boot_config == old(self).boot_config,
            final(self).service_configs@ == old(self).service_configs@,
            final(self).config_file_path == old(self).config_file_path,
    {
        let m = pi_config.memory_limit_mb;
        if m >= 8192 {
            self.system_limits.max_open_files = 65536;
            self.system_limits.max_processes = 4096;
            self.system_limits.nice_limit = -20;
            self.system_limits.rtprio_limit = 99;
        } else if m >= 4096 {
            self.system_limits.max_open_files = 32768;
            self.system_limits.max_processes = 2048;
            self.system_limits.nice_limit = -15;
            self.system_limits.rtprio_limit = 50;
        } else if m >= 2048 {
            self.system_limits.max_open_files = 16384;
            self.system_limits.max_processes = 1024;
            self.system_limits.nice_limit = -10;
            self.system_limits.rtprio_limit = 25;
        } else {
            self.system_limits.max_open_files = 8192;
            self.system_limits.max_processes = 512;
            self.system_limits.nice_limit = -5;
            self.system_limits.rtprio_limit = 10;
        }
        self.system_limits.max_memory_mb = m;
    }

    /// Replaces the services with the four TARS services; the board does
    /// not change them.
    pub fn configure_tars_services(&mut self, pi_config: &RaspberryPiConfig)
        ensures
            is_tars_service_set(final(self).service_configs@),
            final(self).boot_config == old(self).boot_config,
            final(self).system_limits == old(self).system_limits,
            final(self).config_file_path == old(self).config_file_path,
    {
        let mut services: Vec<ServiceConfig> = Vec::new();
        services.push(tars_service("tars-main", -15, 2048, 80, RestartPolicy::Always));
        services.push(tars_service("tars-ai-models", -10, 1536, 70, RestartPolicy::OnFailure));
        services.push(tars_service("tars-hardware", -12, 256, 20, RestartPolicy::Always));
        services.push(tars_service("tars-monitoring", 0, 128, 10, RestartPolicy::Always));
        self.service_configs = services;
    }

    /// The lines of `/boot/config.txt` for the current boot configuration.
    pub fn boot_config_lines(&self) -> (v: Vec<String>)
        ensures
            strings_view(v@) == boot_lines(self.boot_config),
    {
        proof {
            reveal_strlit("");
        }
        let b = &self.boot_config;
        let mut v: Vec<String> = Vec::new();
        push_line(&mut v, String::from_str("# TARS Raspberry Pi Configuration"));
        push_line(&mut v, String::from_str("# Generated automatically - do not edit manually"));
        push_line(&mut v, String::from_str(""));
        let gpu = fmt_u64(b.gpu_memory_split as u64);
        push_line(&mut v, join2("gpu_mem=", gpu.as_str()));
        let ghost mut exp: Seq<Seq<char>> = seq![
            "# TARS Raspberry Pi Configuration"@,
            "# Generated automatically - do not edit manually"@,
            ""@,
            "gpu_mem="@ + decimal(b.gpu_memory_split as nat),
        ];
        assert(strings_view(v@) =~= exp);
        if let Some(freq) = b.arm_freq {
            let f = fmt_u64(freq as u64);
            push_line(&mut v, join2("arm_freq=", f.as_str()));
        }
        proof {
            exp = exp + optional_line("arm_freq="@, b.arm_freq);
        }
        assert(strings_view(v@) =~= exp);
        if let Some(freq) = b.gpu_freq {
            let f = fmt_u64(freq as u64);
            push_line(&mut v, join2("gpu_freq=", f.as_str()));
        }
        proof {
            exp = exp + optional_line("gpu_freq="@, b.gpu_freq);
        }
        assert(strings_view(v@) =~= exp);
        if let Some(voltage) = b.over_voltage {
            let t = fmt_i64(voltage as i64);
            push_line(&mut v, join2("over_voltage=", t.as_str()));
        }
        proof {
            exp = exp + match b.over_voltage {
                Some(x) => seq!["over_voltage="@ + signed_decimal(x as int)],
                None => Seq::<Seq<char>>::empty(),
            };
        }
        assert(strings_view(v@) =~= exp);
        let t = fmt_u64(b.temp_limit as u64);
        push_line(&mut v, join2("temp_limit=", t.as_str()));
        proof {
            exp = exp + seq!["temp_limit="@ + decimal(b.temp_limit as nat)];
        }
        assert(strings_view(v@) =~= exp);
        if b.hdmi_force_hotplug {
            push_line(&mut v, String::from_str("hdmi_force_hotplug=1"));
        }
        proof {
            exp = exp + flag_line(b.hdmi_force_hotplug, "hdmi_force_hotplug=1"@);
        }
        assert(strings_view(v@) =~= exp);
        let d = fmt_u64(b.hdmi_drive as u64);
        push_line(&mut v, join2("hdmi_drive=", d.as_str()));
        proof {
            exp = exp + seq!["hdmi_drive="@ + decimal(b.hdmi_drive as nat)];
        }
        assert(strings_view(v@) =~= exp);
        if b.enable_uart {
            push_line(&mut v, String::from_str("enable_uart=1"));
        }
        proof {
            exp = exp + flag_line(b.enable_uart, "enable_uart=1"@);
        }
        assert(strings_view(v@) =~= exp);
        let ghost head = exp;
        let ghost overlays = strings_view(b.dtoverlay@);
        let mut i: usize = 0;
        while i < b.dtoverlay.len()
            invariant
                i <= b.dtoverlay@.len(),
                overlays == strings_view(b.dtoverlay@),
                strings_view(v@) == head + overlay_lines(overlays.take(i as int)),
            decreases b.dtoverlay@.len() - i,
        {
            let line = join2("dtoverlay=", b.dtoverlay[i].as_str());
            push_line(&mut v, line);
            assert(overlay_lines(overlays.take(i as int + 1)) =~= overlay_lines(overlays.take(i as int)).push(
                "dtoverlay="@ + overlays[i as int],
            ));
            i = i + 1;
        }
        assert(overlays.take(b.dtoverlay@.len() as int) =~= overlays);
        assert(head + overlay_lines(overlays) == boot_lines(self.boot_config));
        assert(strings_view(v@) =~= boot_lines(self.boot_config));
        v
    }

    /// The boot-configuration step: simulated where `/boot/config.txt` does
    /// not exist, else the file's lines are built and counted.
    pub fn apply_boot_config(&self, config_file_exists: bool) -> (r: Result<String, String>)
        ensures
            r matches Ok(m) && m@ == (if config_file_exists {
                boot_updated_message(boot_lines(self.boot_config).len())
            } else {
                boot_simulated_message()
            }),
    {
        if !config_file_exists {
            return Ok(String::from_str("Boot configuration simulated (not on Pi hardware)"));
        }
        let lines = self.boot_config_lines();
        let n = fmt_u64(lines.len() as u64);
        Ok(join3("Boot configuration updated (", n.as_str(), " lines)"))
    }

    /// The lines of the limits file for the current limits.
    pub fn limits_config_lines(&self) -> (v: Vec<String>)
        ensures
            strings_view(v@) == limits_lines(self.system_limits),
    {
        let l = self.system_limits;
        let files = fmt_u64(l.max_open_files as u64);
        let procs = fmt_u64(l.max_processes as u64);
        let nice = fmt_i64(l.nice_limit as i64);
        let rtprio = fmt_u64(l.rtprio_limit as u64);
        let mut v: Vec<String> = Vec::new();
        push_line(&mut v, String::from_str("# TARS System Limits Configuration"));
        push_line(&mut v, join2("* soft nofile ", files.as_str()));
        push_line(&mut v, join2("* hard nofile ", files.as_str()));
        push_line(&mut v, join2("* soft nproc ", procs.as_str()));
        push_line(&mut v, join2("* hard nproc ", procs.as_str()));
        push_line(&mut v, join2("tars soft nice ", nice.as_str()));
        push_line(&mut v, join2("tars hard rtprio ", rtprio.as_str()));
        assert(strings_view(v@) =~= limits_lines(l));
        v
    }

    /// The limits step: the limits file's entries are built and counted.
    pub fn apply_system_limits(&self) -> (r: Result<String, String>)
        ensures
            r matches Ok(m) && m@ == "System limits configured ("@ + decimal(
                limits_lines(self.system_limits).len(),
            ) + " entries)"@,
    {
        let lines = self.limits_config_lines();
        let n = fmt_u64(lines.len() as u64);
        Ok(join3("System limits configured (", n.as_str(), " entries)"))
    }

    /// The systemd unit of a service.
    pub fn generate_systemd_service(&self, service: &ServiceConfig) -> (r: String)
        ensures
            r@ == join_with(unit_lines(*service), "\n"@),
    {
        proof {
            reveal_strlit("");
        }
        let mut v: Vec<String> = Vec::new();
        push_line(&mut v, String::from_str("[Unit]"));
        push_line(&mut v, join2("Description=TARS ", service.service_name.as_str()));
        push_line(&mut v, String::from_str("After=network.target"));
        push_line(&mut v, String::from_str(""));
        push_line(&mut v, String::from_str("[Service]"));
        push_line(&mut v, String::from_str("Type=simple"));
        push_line(&mut v, String::from_str("User=tars"));
        push_line(&mut v, String::from_str("Group=tars"));
        let ghost head = strings_view(v@);
        if let Some(memory_mb) = service.memory_limit_mb {
            let m = fmt_u64(memory_mb as u64);
            push_line(&mut v, join3("MemoryLimit=", m.as_str(), "M"));
        }
        let ghost mem: Seq<Seq<char>> = match service.memory_limit_mb {
            Some(m) => seq!["MemoryLimit="@ + decimal(m as nat) + "M"@],
            None => Seq::empty(),
        };
        assert(strings_view(v@) =~= head + mem);
        let ghost head = strings_view(v@);
        if let Some(cpu_percent) = service.cpu_limit_percent {
            let c = fmt_u64(cpu_percent as u64);
            push_line(&mut v, join3("CPUQuota=", c.as_str(), "%"));
        }
        let ghost cpu: Seq<Seq<char>> = match service.cpu_limit_percent {
            Some(c) => seq!["CPUQuota="@ + decimal(c as nat) + "%"@],
            None => Seq::empty(),
        };
        assert(strings_view(v@) =~= head + cpu);
        let restart = match service.restart_policy {
            RestartPolicy::Always => String::from_str("Restart=always"),
            RestartPolicy::OnFailure => String::from_str("Restart=on-failure"),
            RestartPolicy::Never => String::from_str("Restart=no"),
            RestartPolicy::UnlessStopped => String::from_str("Restart=unless-stopped"),
        };
        push_line(&mut v, restart);
        push_line(&mut v, String::from_str(""));
        push_line(&mut v, String::from_str("[Install]"));
        push_line(&mut v, String::from_str("WantedBy=multi-user.target"));
        assert(strings_view(v@) =~= unit_lines(*service));
        join_strings(&v, "\n")
    }

    /// The services step: each service's unit is built, and the services
    /// are counted.
    pub fn apply_service_configs(&self) -> (r: Result<String, String>)
        ensures
            r matches Ok(m) && m@ == "Configured "@ + decimal(self.service_configs@.len())
                + " TARS services"@,
    {
        let mut configured: usize = 0;
        let mut i: usize = 0;
        while i < self.service_configs.len()
            invariant
                i <= self.service_configs@.len(),
                configured == i,
            decreases self.service_configs@.len() - i,
        {
            let _unit = self.generate_systemd_service(&self.service_configs[i]);
            configured = configured + 1;
            i = i + 1;
        }
        let n = fmt_u64(configured as u64);
        Ok(join3("Configured ", n.as_str(), " TARS services"))
    }

    /// The report of a configuration run, from the results of its modules.
    pub fn generate_tars_config_report(&self, results: &[String]) -> (r: String)
        ensures
            r@ == config_report(
                results@.len(),
                self.boot_config.arm_freq,
                self.boot_config.gpu_memory_split,
            ),
    {
        let total = fmt_u64(results.len() as u64);
        let freq: u32 = match self.boot_config.arm_freq {
            Some(f) => f,
            None => 1500,
        };
        let f = fmt_u64(freq as u64);
        let g = fmt_u64(self.boot_config.gpu_memory_split as u64);
        let mut r = join3(
            "TARS: System configuration deployment complete, Cooper. Applied ",
            total.as_str(),
            " configuration modules. CPU frequency: ",
        );
        r.append(f.as_str());
        r.append("MHz, GPU memory: ");
        r.append(g.as_str());
        r.append(
            "MB. Boot parameters optimized for mission-critical operations. All systems configured for maximum operational efficiency. Mission focus: 100%",
        );
        r
    }

    /// Configures boot settings, limits and services for the board, applies
    /// the three, and reports. `config_file_exists` tells whether
    /// `/boot/config.txt` is present.
    pub fn detect_and_configure(&mut self, pi_config: &RaspberryPiConfig, config_file_exists: bool) -> (r: Result<String, String>)
        ensures
            final(self).boot_config.arm_freq == model_arm_freq(pi_config.model),
            final(self).boot_config.gpu_memory_split == pi_config.gpu_memory_split,
            final(self).system_limits == limits_for_memory(pi_config.memory_limit_mb),
            is_tars_service_set(final(self).service_configs@),
            r matches Ok(m) && m@ == config_report(3, model_arm_freq(pi_config.model), pi_config.gpu_memory_split),
    {
        self.configure_boot_settings(pi_config);
        self.configure_system_limits(pi_config);
        self.configure_tars_services(pi_config);
        let mut results: Vec<String> = Vec::new();
        if let Ok(boot) = self.apply_boot_config(config_file_exists) {
            results.push(boot);
        }
        if let Ok(limits) = self.apply_system_limits() {
            results.push(limits);
        }
        if let Ok(services) = self.apply_service_configs() {
            results.push(services);
        }
        Ok(self.generate_tars_config_report(results.as_slice()))
    }

    /// Names a backup of `/boot/config.txt` after the current UTC time.
    pub fn backup_current_config(&self) -> (r: Result<String, String>)
        ensures
            r matches Ok(m) && exists|t: Seq<char>| m@ == backup_message(t),
    {
        let stamp = utc_timestamp();
        let r = join2("Configuration backed up to /boot/config.txt.backup.", stamp.as_str());
        assert(r@ == backup_message(stamp@));
        Ok(r)
    }

    /// Restores the configuration from a backup.
    pub fn restore_config(&self, backup_path: &str) -> (r: Result<String, String>)
        ensures
            r matches Ok(m) && m@ == "Configuration restored from "@ + backup_path@,
    {
        Ok(join2("Configuration restored from ", backup_path))
    }

    /// The current configuration, key by key.
    pub fn get_current_config_summary(&self) -> (m: StringHashMap<String>)
        ensures
            m@.dom() == set![
                "cpu_frequency"@,
                "gpu_memory"@,
                "temperature_limit"@,
                "services_configured"@,
                "max_open_files"@,
                "tars_assessment"@,
            ],
            m@["cpu_frequency"@]@ == cpu_frequency_text(self.boot_config.arm_freq),
            m@["gpu_memory"@]@ == decimal(self.boot_config.gpu_memory_split as nat) + "MB"@,
            m@["temperature_limit"@]@ == decimal(self.boot_config.temp_limit as nat) + "°C"@,
            m@["services_configured"@]@ == decimal(self.service_configs@.len()),
            m@["max_open_files"@]@ == decimal(self.system_limits.max_open_files as nat),
            m@["tars_assessment"@]@ == summary_assessment(),
    {
        proof {
            reveal_strlit("cpu_frequency");
            reveal_strlit("gpu_memory");
            reveal_strlit("temperature_limit");
            reveal_strlit("services_configured");
            reveal_strlit("max_open_files");
            reveal_strlit("tars_assessment");
            assert("cpu_frequency"@.len() == 13);
            assert("gpu_memory"@.len() == 10);
            assert("temperature_limit"@.len() == 17);
            assert("services_configured"@.len() == 19);
            assert("max_open_files"@.len() == 14);
            assert("tars_assessment"@.len() == 15);
        }
        let mut m: StringHashMap<String> = StringHashMap::new();
        let cpu = match self.boot_config.arm_freq {
            Some(f) => {
                let t = fmt_u64(f as u64);
                join2(t.as_str(), "MHz")
            },
            None => String::from_str("default"),
        };
        let ghost cpu_text = cpu@;
        assert(cpu_text == cpu_frequency_text(self.boot_config.arm_freq));
        m.insert(String::from_str("cpu_frequency"), cpu);
        assert(m@["cpu_frequency"@]@ == cpu_text);
        let g = fmt_u64(self.boot_config.gpu_memory_split as u64);
        m.insert(String::from_str("gpu_memory"), join2(g.as_str(), "MB"));
        let t = fmt_u64(self.boot_config.temp_limit as u64);
        m.insert(String::from_str("temperature_limit"), join2(t.as_str(), "°C"));
        m.insert(String::from_str("services_configured"), fmt_u64(self.service_configs.len() as u64));
        m.insert(String::from_str("max_open_files"), fmt_u64(self.system_limits.max_open_files as u64));
        m.insert(
            String::from_str("tars_assessment"),
            String::from_str(
                "TARS: System configuration analysis complete. All parameters within operational specifications.",
            ),
        );
        assert(m@.dom() =~= set![
            "cpu_frequency"@,
            "gpu_memory"@,
            "temperature_limit"@,
            "services_configured"@,
            "max_open_files"@,
            "tars_assessment"@,
        ]);
        m
    }
}

impl Default for SystemConfigManager {
    fn default() -> (m: Self)
        ensures
            is_stock_boot(m.boot_config),
            m.service_configs@.len() == 0,
    {
        SystemConfigManager::new()
    }
}

/// Configuring the boot settings twice for the same board gives the same
/// settings as once: the second pass finds nothing to change.
pub proof fn law_boot_settings_settle(model: PiModel, before: Option<i8>)
    ensures
        model_over_voltage(model, model_over_voltage(model, before)) == model_over_voltage(model, before),
{
}

/// The limits grow with memory: a board with more memory never gets fewer
/// open files or processes.
pub proof fn law_limits_grow_with_memory(a: u32, b: u32)
    requires
        a <= b,
    ensures
        limits_for_memory(a).max_open_files <= limits_for_memory(b).max_open_files,
        limits_for_memory(a).max_processes <= limits_for_memory(b).max_processes,
        limits_for_memory(b).nice_limit <= limits_for_memory(a).nice_limit,
{
}

} // verus!
