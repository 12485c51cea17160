//! CPU frequency, thermal, I/O and network tuning for each performance
//! profile. Temperatures are whole degrees Celsius.

use crate::raspberry_pi::{CpuGovernor, PerformanceProfile, RaspberryPiConfig};
use crate::raspberry_pi::resource_optimizer::flag_lines;
use crate::text::{decimal, fmt_u64, join2, join3, join_strings, join_with, push_line, strings_view};
use vstd::hash_map::StringHashMap;
use vstd::prelude::*;

verus! {

broadcast use vstd::string::group_string_axioms;

/// Frequency-scaling algorithms of the kernel.
#[derive(Debug, Clone, Copy, PartialEq, Eq, Structural)]
pub enum ScalingAlgorithm {
    Conservative,
    Ondemand,
    Performance,
    Powersave,
    Schedutil,
    Userspace,
}

/// Clock range and scaling of the CPU.
#[derive(Debug, Clone, Copy, PartialEq, Eq, Structural)]
pub struct FrequencyScaling {
    pub min_freq_mhz: u32,
    pub max_freq_mhz: u32,
    pub scaling_algorithm: ScalingAlgorithm,
    pub turbo_enabled: bool,
    pub thermal_throttle_threshold: u32,
}

/// What to do at a temperature threshold.
#[derive(Debug, Clone, Copy, PartialEq, Eq, Structural)]
pub enum ThermalAction {
    ReduceCpuFrequency(u32),
    EnableFan,
    PauseNonCriticalTasks,
    ThrottleGpu,
    EmergencyShutdown,
}

/// How eagerly the board throttles itself.
#[derive(Debug, Clone, Copy, PartialEq, Eq, Structural)]
pub enum ThrottlingPolicy {
    Aggressive,
    Balanced,
    Conservative,
    TarsProtection,
}

/// A temperature at which an action is taken.
#[derive(Debug, Clone, Copy, PartialEq, Eq, Structural)]
pub struct TempThreshold {
    pub temperature: u32,
    pub action: ThermalAction,
    pub priority: u8,
}

/// Cooling and throttling settings.
#[derive(Debug, Clone)]
pub struct ThermalManagement {
    pub passive_cooling: bool,
    pub fan_control_enabled: bool,
    pub temp_thresholds: Vec<TempThreshold>,
    pub throttling_policy: ThrottlingPolicy,
}

/// Block-device I/O scheduling.
#[derive(Debug, Clone)]
pub struct IOScheduler {
    pub scheduler: String,
    pub read_ahead_kb: u32,
    pub queue_depth: u32,
    pub rotational: bool,
}

/// TCP settings.
#[derive(Debug, Clone)]
pub struct NetworkTuning {
    pub tcp_congestion_control: String,
    pub receive_buffer_size: u32,
    pub send_buffer_size: u32,
    pub tcp_window_scaling: bool,
}

/// A rule applied when its condition holds, at most once per cooldown.
#[derive(Debug, Clone)]
pub struct TuningRule {
    pub name: String,
    pub condition: String,
    pub action: String,
    pub priority: u8,
    pub enabled: bool,
    pub cooldown_seconds: u64,
    pub last_applied: Option<std::time::SystemTime>,
}

/// The tuner's state.
#[derive(Debug, Clone)]
pub struct PerformanceTuner {
    pub current_profile: PerformanceProfile,
    pub cpu_governor: CpuGovernor,
    pub frequency_scaling: FrequencyScaling,
    pub thermal_management: ThermalManagement,
    pub io_scheduler: IOScheduler,
    pub network_tuning: NetworkTuning,
    pub active_tuning_rules: Vec<TuningRule>,
}

/// The stock frequency scaling: 600 to 1500 MHz on demand.
pub open spec fn default_scaling() -> FrequencyScaling {
    FrequencyScaling {
        min_freq_mhz: 600,
        max_freq_mhz: 1500,
        scaling_algorithm: ScalingAlgorithm::Ondemand,
        turbo_enabled: false,
        thermal_throttle_threshold: 80,
    }
}

/// The stock thresholds: slow down at 80 degrees, shut down at 85.
pub open spec fn default_thresholds() -> Seq<TempThreshold> {
    seq![
        TempThreshold { temperature: 80, action: ThermalAction::ReduceCpuFrequency(1200), priority: 8 },
        TempThreshold { temperature: 85, action: ThermalAction::EmergencyShutdown, priority: 10 },
    ]
}

/// The thresholds of the TARS profile.
pub open spec fn tars_thresholds() -> Seq<TempThreshold> {
    seq![
        TempThreshold { temperature: 70, action: ThermalAction::EnableFan, priority: 5 },
        TempThreshold { temperature: 75, action: ThermalAction::ReduceCpuFrequency(1600), priority: 7 },
        TempThreshold { temperature: 80, action: ThermalAction::PauseNonCriticalTasks, priority: 8 },
        TempThreshold { temperature: 85, action: ThermalAction::ReduceCpuFrequency(1200), priority: 9 },
    ]
}

impl Default for FrequencyScaling {
    fn default() -> (f: Self)
        ensures
            f == default_scaling(),
    {
        FrequencyScaling {
            min_freq_mhz: 600,
            max_freq_mhz: 1500,
            scaling_algorithm: ScalingAlgorithm::Ondemand,
            turbo_enabled: false,
            thermal_throttle_threshold: 80,
        }
    }
}

impl Default for ThermalManagement {
    fn default() -> (t: Self)
        ensures
            t.passive_cooling,
            !t.fan_control_enabled,
            t.temp_thresholds@ == default_thresholds(),
            t.throttling_policy == ThrottlingPolicy::Balanced,
    {
        let mut v: Vec<TempThreshold> = Vec::new();
        v.push(TempThreshold { temperature: 80, action: ThermalAction::ReduceCpuFrequency(1200), priority: 8 });
        v.push(TempThreshold { temperature: 85, action: ThermalAction::EmergencyShutdown, priority: 10 });
        assert(v@ =~= default_thresholds());
        ThermalManagement {
            passive_cooling: true,
            fan_control_enabled: false,
            temp_thresholds: v,
            throttling_policy: ThrottlingPolicy::Balanced,
        }
    }
}

impl Default for IOScheduler {
    fn default() -> (s: Self)
        ensures
            s.scheduler@ == "mq-deadline"@,
            s.read_ahead_kb == 128,
            s.queue_depth == 32,
            !s.rotational,
    {
        IOScheduler { scheduler: String::from_str("mq-deadline"), read_ahead_kb: 128, queue_depth: 32, rotational: false }
    }
}

impl Default for NetworkTuning {
    fn default() -> (n: Self)
        ensures
            n.tcp_congestion_control@ == "bbr"@,
            n.receive_buffer_size == 16777216,
            n.send_buffer_size == 16777216,
            n.tcp_window_scaling,
    {
        NetworkTuning {
            tcp_congestion_control: String::from_str("bbr"),
            receive_buffer_size: 16777216,
            send_buffer_size: 16777216,
            tcp_window_scaling: true,
        }
    }
}

/// Whether `r` is the rule with these fields, switched on and never applied.
pub open spec fn is_tuning_rule(r: TuningRule, name: Seq<char>, condition: Seq<char>, action: Seq<char>, priority: u8, cooldown: u64) -> bool {
    &&& r.name@ == name
    &&& r.condition@ == condition
    &&& r.action@ == action
    &&& r.priority == priority
    &&& r.enabled
    &&& r.cooldown_seconds == cooldown
    &&& r.last_applied is None
}

/// The four rules the tuner starts with.
pub open spec fn is_default_tuning_rules(v: Seq<TuningRule>) -> bool {
    &&& v.len() == 4
    &&& is_tuning_rule(v[0], "High Temperature CPU Throttling"@, "high_cpu_temp"@, "reduce_cpu_frequency"@, 10, 30)
    &&& is_tuning_rule(v[1], "High CPU Load Optimization"@, "high_cpu_usage"@, "optimize_process_scheduling"@, 8, 60)
    &&& is_tuning_rule(v[2], "Memory Pressure Relief"@, "high_memory_usage"@, "activate_swap_optimization"@, 7, 45)
    &&& is_tuning_rule(v[3], "Throttling Response"@, "throttling_active"@, "emergency_performance_reduction"@, 9, 20)
}

fn tuning_rule(name: &str, condition: &str, action: &str, priority: u8, cooldown: u64) -> (r: TuningRule)
    ensures
        is_tuning_rule(r, name@, condition@, action@, priority, cooldown),
{
    TuningRule {
        name: String::from_str(name),
        condition: String::from_str(condition),
        action: String::from_str(action),
        priority,
        enabled: true,
        cooldown_seconds: cooldown,
        last_applied: None,
    }
}

/// The clock range, algorithm and turbo setting of each profile.
pub open spec fn profile_scaling(p: PerformanceProfile, before: FrequencyScaling) -> FrequencyScaling {
    match p {
        PerformanceProfile::MaxPerformance => FrequencyScaling { min_freq_mhz: 1800, max_freq_mhz: 2000, scaling_algorithm: ScalingAlgorithm::Performance, turbo_enabled: true, ..before },
        PerformanceProfile::TarsOptimized => FrequencyScaling { min_freq_mhz: 1000, max_freq_mhz: 1800, scaling_algorithm: ScalingAlgorithm::Schedutil, turbo_enabled: true, ..before },
        PerformanceProfile::Balanced => FrequencyScaling { min_freq_mhz: 600, max_freq_mhz: 1500, scaling_algorithm: ScalingAlgorithm::Ondemand, turbo_enabled: false, ..before },
        PerformanceProfile::PowerSaver => FrequencyScaling { min_freq_mhz: 600, max_freq_mhz: 1000, scaling_algorithm: ScalingAlgorithm::Powersave, turbo_enabled: false, ..before },
    }
}

/// The throttling policy of each profile.
pub open spec fn profile_policy(p: PerformanceProfile) -> ThrottlingPolicy {
    match p {
        PerformanceProfile::MaxPerformance => ThrottlingPolicy::Conservative,
        PerformanceProfile::TarsOptimized => ThrottlingPolicy::TarsProtection,
        PerformanceProfile::Balanced => ThrottlingPolicy::Balanced,
        PerformanceProfile::PowerSaver => ThrottlingPolicy::Aggressive,
    }
}

/// The I/O scheduler of each profile.
pub open spec fn profile_scheduler(p: PerformanceProfile) -> Seq<char> {
    match p {
        PerformanceProfile::MaxPerformance => "mq-deadline"@,
        PerformanceProfile::TarsOptimized => "mq-deadline"@,
        PerformanceProfile::Balanced => "kyber"@,
        PerformanceProfile::PowerSaver => "none"@,
    }
}

/// The read-ahead of each profile, where the profile sets one.
pub open spec fn profile_read_ahead(p: PerformanceProfile, before: u32) -> u32 {
    match p {
        PerformanceProfile::MaxPerformance => 4096,
        PerformanceProfile::TarsOptimized => 2048,
        _ => before,
    }
}

/// The sysfs name of a governor.
pub open spec fn governor_name(g: CpuGovernor) -> Seq<char> {
    match g {
        CpuGovernor::Performance => "performance"@,
        CpuGovernor::Powersave => "powersave"@,
        CpuGovernor::Ondemand => "ondemand"@,
        CpuGovernor::Conservative => "conservative"@,
        CpuGovernor::Schedutil => "schedutil"@,
    }
}

/// The kernel cooling policy of a throttling policy.
pub open spec fn cooling_policy(p: ThrottlingPolicy) -> Seq<char> {
    match p {
        ThrottlingPolicy::Aggressive => "step_wise"@,
        ThrottlingPolicy::Balanced => "fair_share"@,
        ThrottlingPolicy::Conservative => "user_space"@,
        ThrottlingPolicy::TarsProtection => "step_wise"@,
    }
}

/// The message of a thermal action.
pub open spec fn thermal_action_text(a: ThermalAction) -> Seq<char> {
    match a {
        ThermalAction::ReduceCpuFrequency(f) => "TARS: Reducing CPU frequency to "@ + decimal(f as nat) + "MHz due to thermal conditions."@,
        ThermalAction::EnableFan => "TARS: Activating cooling fan for thermal management."@,
        ThermalAction::PauseNonCriticalTasks => "TARS: Pausing non-critical background tasks to reduce thermal load."@,
        ThermalAction::ThrottleGpu => "TARS: Throttling GPU performance to manage system temperature."@,
        ThermalAction::EmergencyShutdown => "TARS: EMERGENCY - Initiating thermal protection shutdown sequence!"@,
    }
}

/// The sysfs file of a CPU's frequency parameter.
pub open spec fn cpufreq_path(cpu: nat, param: Seq<char>) -> Seq<char> {
    "/sys/devices/system/cpu/cpu"@ + decimal(cpu) + "/cpufreq/"@ + param
}

/// The variant name of a profile, as `{:?}` prints it.
pub open spec fn profile_debug(p: PerformanceProfile) -> Seq<char> {
    match p {
        PerformanceProfile::MaxPerformance => "MaxPerformance"@,
        PerformanceProfile::Balanced => "Balanced"@,
        PerformanceProfile::PowerSaver => "PowerSaver"@,
        PerformanceProfile::TarsOptimized => "TarsOptimized"@,
    }
}

/// The variant name of a governor, as `{:?}` prints it.
pub open spec fn governor_debug(g: CpuGovernor) -> Seq<char> {
    match g {
        CpuGovernor::Performance => "Performance"@,
        CpuGovernor::Powersave => "Powersave"@,
        CpuGovernor::Ondemand => "Ondemand"@,
        CpuGovernor::Conservative => "Conservative"@,
        CpuGovernor::Schedutil => "Schedutil"@,
    }
}

/// The variant name of a throttling policy, as `{:?}` prints it.
pub open spec fn policy_debug(p: ThrottlingPolicy) -> Seq<char> {
    match p {
        ThrottlingPolicy::Aggressive => "Aggressive"@,
        ThrottlingPolicy::Balanced => "Balanced"@,
        ThrottlingPolicy::Conservative => "Conservative"@,
        ThrottlingPolicy::TarsProtection => "TarsProtection"@,
    }
}

/// Whether a rule's condition holds, given which of the monitored limits
/// are exceeded; an unknown condition never holds.
pub open spec fn condition_holds(
    condition: Seq<char>,
    hot: bool,
    busy: bool,
    memory_pressed: bool,
    throttling: bool,
) -> bool {
    if condition == "high_cpu_temp"@ {
        hot
    } else if condition == "high_cpu_usage"@ {
        busy
    } else if condition == "high_memory_usage"@ {
        memory_pressed
    } else if condition == "throttling_active"@ {
        throttling
    } else {
        false
    }
}

/// The number of rules that are switched on.
pub open spec fn enabled_rule_count(v: Seq<TuningRule>) -> nat
    decreases v.len(),
{
    if v.len() == 0 {
        0
    } else {
        enabled_rule_count(v.drop_last()) + if v.last().enabled {
            1nat
        } else {
            0nat
        }
    }
}

fn profile_debug_exec(p: PerformanceProfile) -> (s: &'static str)
    ensures
        s@ == profile_debug(p),
{
    match p {
        PerformanceProfile::MaxPerformance => "MaxPerformance",
        PerformanceProfile::Balanced => "Balanced",
        PerformanceProfile::PowerSaver => "PowerSaver",
        PerformanceProfile::TarsOptimized => "TarsOptimized",
    }
}

fn governor_debug_exec(g: CpuGovernor) -> (s: &'static str)
    ensures
        s@ == governor_debug(g),
{
    match g {
        CpuGovernor::Performance => "Performance",
        CpuGovernor::Powersave => "Powersave",
        CpuGovernor::Ondemand => "Ondemand",
        CpuGovernor::Conservative => "Conservative",
        CpuGovernor::Schedutil => "Schedutil",
    }
}

fn policy_debug_exec(p: ThrottlingPolicy) -> (s: &'static str)
    ensures
        s@ == policy_debug(p),
{
    match p {
        ThrottlingPolicy::Aggressive => "Aggressive",
        ThrottlingPolicy::Balanced => "Balanced",
        ThrottlingPolicy::Conservative => "Conservative",
        ThrottlingPolicy::TarsProtection => "TarsProtection",
    }
}

/// The sysfs name of a governor.
pub fn governor_sysfs_name(g: CpuGovernor) -> (s: &'static str)
    ensures
        s@ == governor_name(g),
{
    match g {
        CpuGovernor::Performance => "performance",
        CpuGovernor::Powersave => "powersave",
        CpuGovernor::Ondemand => "ondemand",
        CpuGovernor::Conservative => "conservative",
        CpuGovernor::Schedutil => "schedutil",
    }
}

/// The message of a thermal action.
pub fn thermal_action_message(a: ThermalAction) -> (s: String)
    ensures
        s@ == thermal_action_text(a),
{
    match a {
        ThermalAction::ReduceCpuFrequency(f) => {
            let t = fmt_u64(f as u64);
            join3("TARS: Reducing CPU frequency to ", t.as_str(), "MHz due to thermal conditions.")
        },
        ThermalAction::EnableFan => String::from_str("TARS: Activating cooling fan for thermal management."),
        ThermalAction::PauseNonCriticalTasks => String::from_str(
            "TARS: Pausing non-critical background tasks to reduce thermal load.",
        ),
        ThermalAction::ThrottleGpu => String::from_str("TARS: Throttling GPU performance to manage system temperature."),
        ThermalAction::EmergencyShutdown => String::from_str(
            "TARS: EMERGENCY - Initiating thermal protection shutdown sequence!",
        ),
    }
}

/// The sysfs files of a frequency parameter, one per core of the four.
pub fn cpufreq_paths(param: &str) -> (v: Vec<String>)
    ensures
        v@.len() == 4,
        forall|i: int| 0 <= i < 4 ==> (#[trigger] v@[i])@ == cpufreq_path(i as nat, param@),
{
    let mut v: Vec<String> = Vec::new();
    let mut cpu: u64 = 0;
    while cpu < 4
        invariant
            cpu <= 4,
            v@.len() == cpu,
            forall|i: int| 0 <= i < cpu ==> (#[trigger] v@[i])@ == cpufreq_path(i as nat, param@),
        decreases 4 - cpu,
    {
        let n = fmt_u64(cpu);
        let mut p = join3("/sys/devices/system/cpu/cpu", n.as_str(), "/cpufreq/");
        p.append(param);
        v.push(p);
        cpu = cpu + 1;
    }
    v
}

/// Whether a rule is out of its cooldown: never applied, or applied at
/// least `cooldown` seconds ago.
pub fn cooldown_elapsed(seconds_since_applied: Option<u64>, cooldown: u64) -> (r: bool)
    ensures
        r == match seconds_since_applied {
            Some(s) => s >= cooldown,
            None => true,
        },
{
    match seconds_since_applied {
        Some(s) => s >= cooldown,
        None => true,
    }
}

/// Whether a rule's condition holds, given which monitored limits are
/// exceeded.
pub fn tuning_condition_met(condition: &str, hot: bool, busy: bool, memory_pressed: bool, throttling: bool) -> (r: bool)
    ensures
        r == condition_holds(condition@, hot, busy, memory_pressed, throttling),
{
    if crate::text::str_equal(condition, "high_cpu_temp") {
        hot
    } else if crate::text::str_equal(condition, "high_cpu_usage") {
        busy
    } else if crate::text::str_equal(condition, "high_memory_usage") {
        memory_pressed
    } else if crate::text::str_equal(condition, "throttling_active") {
        throttling
    } else {
        false
    }
}

/// The message of a rule that was applied.
pub fn applied_rule_message(rule: &TuningRule) -> (s: String)
    ensures
        s@ == "TARS: Applied tuning rule '"@ + rule.name@ + "' - "@ + rule.action@,
{
    let mut s = join3("TARS: Applied tuning rule '", rule.name.as_str(), "' - ");
    s.append(rule.action.as_str());
    s
}

/// The frequency step's report.
pub open spec fn frequency_report(f: FrequencyScaling) -> Seq<char> {
    "Frequency scaling configured: Min frequency: "@ + decimal(f.min_freq_mhz as nat) + "MHz, Max frequency: "@
        + decimal(f.max_freq_mhz as nat) + "MHz"@
}

/// The thermal step's report for a throttling temperature.
pub open spec fn thermal_report(temp: u32, p: ThrottlingPolicy) -> Seq<char> {
    "Thermal management: Thermal threshold: "@ + decimal(temp as nat) + "°C, Cooling policy: "@ + cooling_policy(p)
}

/// The I/O step's report.
pub open spec fn io_report(s: IOScheduler) -> Seq<char> {
    "I/O scheduler configured: Scheduler: "@ + s.scheduler@ + ", Read-ahead: "@ + decimal(s.read_ahead_kb as nat)
        + "KB, Queue depth: "@ + decimal(s.queue_depth as nat)
}

/// The entries of the network step's report, for the sysctl writes that
/// succeeded (congestion control, receive buffer, send buffer).
pub open spec fn network_entries(n: NetworkTuning, written: Seq<bool>) -> Seq<Seq<char>> {
    flag_lines(written[0], "TCP congestion: "@ + n.tcp_congestion_control@) + flag_lines(
        written[1],
        "RX buffer: "@ + decimal(n.receive_buffer_size as nat),
    ) + flag_lines(written[2], "TX buffer: "@ + decimal(n.send_buffer_size as nat))
}

/// The tuner's closing verdict.
pub open spec fn tuning_assessment(p: PerformanceProfile, g: CpuGovernor) -> Seq<char> {
    "TARS: Performance tuning system operational. Profile: "@ + profile_debug(p) + ", Governor: "@ + governor_debug(g)
        + ". All optimization protocols active and monitoring system performance. Mission efficiency: Maximum."@
}

impl PerformanceTuner {
    /// A tuner in the balanced profile with stock settings and the default
    /// rules.
    pub fn new() -> (t: Self)
        ensures
            t.current_profile == PerformanceProfile::Balanced,
            t.cpu_governor == CpuGovernor::Ondemand,
            t.frequency_scaling == default_scaling(),
            t.thermal_management.temp_thresholds@ == default_thresholds(),
            t.thermal_management.throttling_policy == ThrottlingPolicy::Balanced,
            t.io_scheduler.scheduler@ == "mq-deadline"@,
            t.io_scheduler.read_ahead_kb == 128,
            t.io_scheduler.queue_depth == 32,
            t.network_tuning.tcp_congestion_control@ == "bbr"@,
            is_default_tuning_rules(t.active_tuning_rules@),
    {
        PerformanceTuner {
            current_profile: PerformanceProfile::Balanced,
            cpu_governor: CpuGovernor::Ondemand,
            frequency_scaling: FrequencyScaling::default(),
            thermal_management: ThermalManagement::default(),
            io_scheduler: IOScheduler::default(),
            network_tuning: NetworkTuning::default(),
            active_tuning_rules: PerformanceTuner::create_default_tuning_rules(),
        }
    }

    /// The four default tuning rules, all switched on.
    pub fn create_default_tuning_rules() -> (v: Vec<TuningRule>)
        ensures
            is_default_tuning_rules(v@),
    {
        let mut v: Vec<TuningRule> = Vec::new();
        v.push(tuning_rule("High Temperature CPU Throttling", "high_cpu_temp", "reduce_cpu_frequency", 10, 30));
        v.push(tuning_rule("High CPU Load Optimization", "high_cpu_usage", "optimize_process_scheduling", 8, 60));
        v.push(tuning_rule("Memory Pressure Relief", "high_memory_usage", "activate_swap_optimization", 7, 45));
        v.push(tuning_rule("Throttling Response", "throttling_active", "emergency_performance_reduction", 9, 20));
        v
    }

    /// Sets clocks, throttling, the I/O scheduler and, for the TARS profile,
    /// its thermal thresholds, after the configuration's profile.
    pub fn apply_performance_profile(&mut self, config: &RaspberryPiConfig)
        ensures
            final(self).frequency_scaling == profile_scaling(config.performance_profile, old(self).frequency_scaling),
            final(self).thermal_management.throttling_policy == profile_policy(config.performance_profile),
            final(self).io_scheduler.scheduler@ == profile_scheduler(config.performance_profile),
            final(self).io_scheduler.read_ahead_kb == profile_read_ahead(
                config.performance_profile,
                old(self).io_scheduler.read_ahead_kb,
            ),
            final(self).io_scheduler.queue_depth == old(self).io_scheduler.queue_depth,
            final(self).thermal_management.temp_thresholds@ == if config.performance_profile
                == PerformanceProfile::TarsOptimized {
                tars_thresholds()
            } else {
                old(self).thermal_management.temp_thresholds@
            },
            final(self).current_profile == old(self).current_profile,
            final(self).cpu_governor == old(self).cpu_governor,
            final(self).active_tuning_rules@ == old(self).active_tuning_rules@,
            final(self).network_tuning == old(self).network_tuning,
            final(self).thermal_management.passive_cooling == old(self).thermal_management.passive_cooling,
            final(self).thermal_management.fan_control_enabled == old(self).thermal_management.fan_control_enabled,
            final(self).io_scheduler.rotational == old(self).io_scheduler.rotational,
    {
        match config.performance_profile {
            PerformanceProfile::MaxPerformance => {
                self.frequency_scaling.min_freq_mhz = 1800;
                self.frequency_scaling.max_freq_mhz = 2000;
                self.frequency_scaling.scaling_algorithm = ScalingAlgorithm::Performance;
                self.frequency_scaling.turbo_enabled = true;
                self.thermal_management.throttling_policy = ThrottlingPolicy::Conservative;
                self.io_scheduler.scheduler = String::from_str("mq-deadline");
                self.io_scheduler.read_ahead_kb = 4096;
            },
            PerformanceProfile::TarsOptimized => {
                self.frequency_scaling.min_freq_mhz = 1000;
                self.frequency_scaling.max_freq_mhz = 1800;
                self.frequency_scaling.scaling_algorithm = ScalingAlgorithm::Schedutil;
                self.frequency_scaling.turbo_enabled = true;
                self.thermal_management.throttling_policy = ThrottlingPolicy::TarsProtection;
                self.io_scheduler.scheduler = String::from_str("mq-deadline");
                self.io_scheduler.read_ahead_kb = 2048;
                let mut v: Vec<TempThreshold> = Vec::new();
                v.push(TempThreshold { temperature: 70, action: ThermalAction::EnableFan, priority: 5 });
                v.push(TempThreshold { temperature: 75, action: ThermalAction::ReduceCpuFrequency(1600), priority: 7 });
                v.push(TempThreshold { temperature: 80, action: ThermalAction::PauseNonCriticalTasks, priority: 8 });
                v.push(TempThreshold { temperature: 85, action: ThermalAction::ReduceCpuFrequency(1200), priority: 9 });
                assert(v@ =~= tars_thresholds());
                self.thermal_management.temp_thresholds = v;
            },
            PerformanceProfile::Balanced => {
                self.frequency_scaling.min_freq_mhz = 600;
                self.frequency_scaling.max_freq_mhz = 1500;
                self.frequency_scaling.scaling_algorithm = ScalingAlgorithm::Ondemand;
                self.frequency_scaling.turbo_enabled = false;
                self.thermal_management.throttling_policy = ThrottlingPolicy::Balanced;
                self.io_scheduler.scheduler = String::from_str("kyber");
            },
            PerformanceProfile::PowerSaver => {
                self.frequency_scaling.min_freq_mhz = 600;
                self.frequency_scaling.max_freq_mhz = 1000;
                self.frequency_scaling.scaling_algorithm = ScalingAlgorithm::Powersave;
                self.frequency_scaling.turbo_enabled = false;
                self.thermal_management.throttling_policy = ThrottlingPolicy::Aggressive;
                self.io_scheduler.scheduler = String::from_str("none");
            },
        }
    }

    /// Records the governor; the report names it. Writing it to each core's
    /// `scaling_governor` file is left to the caller, whose failures the
    /// step ignores.
    pub fn set_cpu_governor(&mut self, governor: &CpuGovernor) -> (r: Result<String, String>)
        ensures
            final(self).cpu_governor == *governor,
            final(self).current_profile == old(self).current_profile,
            final(self).frequency_scaling == old(self).frequency_scaling,
            final(self).thermal_management.throttling_policy == old(self).thermal_management.throttling_policy,
            final(self).thermal_management.temp_thresholds@ == old(self).thermal_management.temp_thresholds@,
            final(self).io_scheduler.scheduler@ == old(self).io_scheduler.scheduler@,
            final(self).io_scheduler.read_ahead_kb == old(self).io_scheduler.read_ahead_kb,
            final(self).io_scheduler.queue_depth == old(self).io_scheduler.queue_depth,
            final(self).active_tuning_rules@ == old(self).active_tuning_rules@,
            r matches Ok(m) && m@ == "CPU governor set to "@ + governor_name(*governor),
    {
        let name = governor_sysfs_name(*governor);
        self.cpu_governor = *governor;
        Ok(join2("CPU governor set to ", name))
    }

    /// The frequency step: both limits are written to every core (failures
    /// are ignored) and reported.
    pub fn configure_frequency_scaling(&self, config: &RaspberryPiConfig) -> (r: Result<String, String>)
        ensures
            r matches Ok(m) && m@ == frequency_report(self.frequency_scaling),
    {
        let lo = fmt_u64(self.frequency_scaling.min_freq_mhz as u64);
        let hi = fmt_u64(self.frequency_scaling.max_freq_mhz as u64);
        let mut r = join3("Frequency scaling configured: Min frequency: ", lo.as_str(), "MHz, Max frequency: ");
        r.append(hi.as_str());
        r.append("MHz");
        Ok(r)
    }

    /// The trip point written for a throttling temperature, in millidegrees.
    pub fn throttle_millidegrees(config: &RaspberryPiConfig) -> (m: u64)
        ensures
            m == config.thermal_throttle_temp * 1000,
    {
        config.thermal_throttle_temp as u64 * 1000
    }

    /// The thermal step: the trip point is written (failures are ignored),
    /// and the threshold and cooling policy are reported.
    pub fn configure_thermal_management(&self, config: &RaspberryPiConfig) -> (r: Result<String, String>)
        ensures
            r matches Ok(m) && m@ == thermal_report(config.thermal_throttle_temp, self.thermal_management.throttling_policy),
    {
        let t = fmt_u64(config.thermal_throttle_temp as u64);
        let policy = match self.thermal_management.throttling_policy {
            ThrottlingPolicy::Aggressive => "step_wise",
            ThrottlingPolicy::Balanced => "fair_share",
            ThrottlingPolicy::Conservative => "user_space",
            ThrottlingPolicy::TarsProtection => "step_wise",
        };
        let mut r = join3("Thermal management: Thermal threshold: ", t.as_str(), "°C, Cooling policy: ");
        r.append(policy);
        Ok(r)
    }

    /// The I/O step's report.
    pub fn configure_io_scheduler(&self) -> (r: Result<String, String>)
        ensures
            r matches Ok(m) && m@ == io_report(self.io_scheduler),
    {
        let ra = fmt_u64(self.io_scheduler.read_ahead_kb as u64);
        let qd = fmt_u64(self.io_scheduler.queue_depth as u64);
        let mut r = join3("I/O scheduler configured: Scheduler: ", self.io_scheduler.scheduler.as_str(), ", Read-ahead: ");
        r.append(ra.as_str());
        r.append("KB, Queue depth: ");
        r.append(qd.as_str());
        Ok(r)
    }

    /// The network step's report, for the sysctl writes that succeeded.
    pub fn configure_network_tuning(&self, written: [bool; 3]) -> (r: Result<String, String>)
        ensures
            r matches Ok(m) && m@ == "Network tuning: "@ + join_with(network_entries(self.network_tuning, written@), ", "@),
    {
        let mut v: Vec<String> = Vec::new();
        let ghost mut exp: Seq<Seq<char>> = Seq::empty();
        if written[0] {
            push_line(&mut v, join2("TCP congestion: ", self.network_tuning.tcp_congestion_control.as_str()));
        }
        proof {
            exp = exp + flag_lines(written[0], "TCP congestion: "@ + self.network_tuning.tcp_congestion_control@);
        }
        assert(strings_view(v@) =~= exp);
        if written[1] {
            let n = fmt_u64(self.network_tuning.receive_buffer_size as u64);
            push_line(&mut v, join2("RX buffer: ", n.as_str()));
        }
        proof {
            exp = exp + flag_lines(written[1], "RX buffer: "@ + decimal(self.network_tuning.receive_buffer_size as nat));
        }
        assert(strings_view(v@) =~= exp);
        if written[2] {
            let n = fmt_u64(self.network_tuning.send_buffer_size as u64);
            push_line(&mut v, join2("TX buffer: ", n.as_str()));
        }
        proof {
            exp = exp + flag_lines(written[2], "TX buffer: "@ + decimal(self.network_tuning.send_buffer_size as nat));
        }
        assert(strings_view(v@) =~= exp);
        let body = join_strings(&v, ", ");
        Ok(join2("Network tuning: ", body.as_str()))
    }

    /// Tunes for the board: records its profile, applies it, sets its
    /// governor, and collects the reports of the governor, frequency,
    /// thermal, I/O and network steps. `network_written` tells which of
    /// the network sysctl writes succeeded.
    pub fn configure_for_pi(&mut self, config: &RaspberryPiConfig, network_written: [bool; 3]) -> (r: Result<Vec<String>, String>)
        ensures
            final(self).current_profile == config.performance_profile,
            final(self).cpu_governor == config.power_management.cpu_governor,
            final(self).frequency_scaling == profile_scaling(config.performance_profile, old(self).frequency_scaling),
            final(self).thermal_management.throttling_policy == profile_policy(config.performance_profile),
            final(self).io_scheduler.scheduler@ == profile_scheduler(config.performance_profile),
            final(self).thermal_management.temp_thresholds@ == if config.performance_profile
                == PerformanceProfile::TarsOptimized {
                tars_thresholds()
            } else {
                old(self).thermal_management.temp_thresholds@
            },
            r matches Ok(v) && strings_view(v@) == seq![
                "CPU governor set to "@ + governor_name(config.power_management.cpu_governor),
                frequency_report(final(self).frequency_scaling),
                thermal_report(config.thermal_throttle_temp, final(self).thermal_management.throttling_policy),
                io_report(final(self).io_scheduler),
                "Network tuning: "@ + join_with(network_entries(final(self).network_tuning, network_written@), ", "@),
            ],
    {
        self.current_profile = config.performance_profile;
        self.apply_performance_profile(config);
        let mut v: Vec<String> = Vec::new();
        if let Ok(m) = self.set_cpu_governor(&config.power_management.cpu_governor) {
            push_line(&mut v, m);
        }
        if let Ok(m) = self.configure_frequency_scaling(config) {
            push_line(&mut v, m);
        }
        if let Ok(m) = self.configure_thermal_management(config) {
            push_line(&mut v, m);
        }
        if let Ok(m) = self.configure_io_scheduler() {
            push_line(&mut v, m);
        }
        if let Ok(m) = self.configure_network_tuning(network_written) {
            push_line(&mut v, m);
        }
        Ok(v)
    }

    /// The current tuning, key by key.
    pub fn get_current_tuning_summary(&self) -> (m: StringHashMap<String>)
        ensures
            m@.dom() == set![
                "performance_profile"@,
                "cpu_governor"@,
                "min_frequency"@,
                "max_frequency"@,
                "thermal_policy"@,
                "io_scheduler"@,
                "active_rules"@,
                "tars_assessment"@,
            ],
            m@["performance_profile"@]@ == profile_debug(self.current_profile),
            m@["cpu_governor"@]@ == governor_debug(self.cpu_governor),
            m@["min_frequency"@]@ == decimal(self.frequency_scaling.min_freq_mhz as nat) + "MHz"@,
            m@["max_frequency"@]@ == decimal(self.frequency_scaling.max_freq_mhz as nat) + "MHz"@,
            m@["thermal_policy"@]@ == policy_debug(self.thermal_management.throttling_policy),
            m@["io_scheduler"@]@ == self.io_scheduler.scheduler@,
            m@["active_rules"@]@ == decimal(enabled_rule_count(self.active_tuning_rules@)),
            m@["tars_assessment"@]@ == tuning_assessment(self.current_profile, self.cpu_governor),
    {
        proof {
            reveal_strlit("performance_profile");
            reveal_strlit("cpu_governor");
            reveal_strlit("min_frequency");
            reveal_strlit("max_frequency");
            reveal_strlit("thermal_policy");
            reveal_strlit("io_scheduler");
            reveal_strlit("active_rules");
            reveal_strlit("tars_assessment");
            assert("performance_profile"@.len() == 19);
            assert("cpu_governor"@.len() == 12);
            assert("min_frequency"@.len() == 13);
            assert("max_frequency"@.len() == 13);
            assert("min_frequency"@[1] != "max_frequency"@[1]);
            assert("thermal_policy"@.len() == 14);
            assert("io_scheduler"@.len() == 12);
            assert("cpu_governor"@[0] != "io_scheduler"@[0]);
            assert("active_rules"@.len() == 12);
            assert("cpu_governor"@[0] != "active_rules"@[0]);
            assert("io_scheduler"@[0] != "active_rules"@[0]);
            assert("tars_assessment"@.len() == 15);
        }
        let mut enabled: usize = 0;
        let mut i: usize = 0;
        while i < self.active_tuning_rules.len()
            invariant
                i <= self.active_tuning_rules@.len(),
                enabled == enabled_rule_count(self.active_tuning_rules@.take(i as int)),
                enabled <= i,
            decreases self.active_tuning_rules@.len() - i,
        {
            assert(self.active_tuning_rules@.take(i as int + 1).drop_last() =~= self.active_tuning_rules@.take(i as int));
            if self.active_tuning_rules[i].enabled {
                enabled = enabled + 1;
            }
            i = i + 1;
        }
        assert(self.active_tuning_rules@.take(self.active_tuning_rules@.len() as int) =~= self.active_tuning_rules@);
        let profile = profile_debug_exec(self.current_profile);
        let governor = governor_debug_exec(self.cpu_governor);
        let mut m: StringHashMap<String> = StringHashMap::new();
        m.insert(String::from_str("performance_profile"), String::from_str(profile));
        m.insert(String::from_str("cpu_governor"), String::from_str(governor));
        let lo = fmt_u64(self.frequency_scaling.min_freq_mhz as u64);
        m.insert(String::from_str("min_frequency"), join2(lo.as_str(), "MHz"));
        let hi = fmt_u64(self.frequency_scaling.max_freq_mhz as u64);
        m.insert(String::from_str("max_frequency"), join2(hi.as_str(), "MHz"));
        m.insert(
            String::from_str("thermal_policy"),
            String::from_str(policy_debug_exec(self.thermal_management.throttling_policy)),
        );
        m.insert(String::from_str("io_scheduler"), self.io_scheduler.scheduler.clone());
        m.insert(String::from_str("active_rules"), fmt_u64(enabled as u64));
        let mut a = join3("TARS: Performance tuning system operational. Profile: ", profile, ", Governor: ");
        a.append(governor);
        a.append(". All optimization protocols active and monitoring system performance. Mission efficiency: Maximum.");
        m.insert(String::from_str("tars_assessment"), a);
        assert(m@.dom() =~= set![
            "performance_profile"@,
            "cpu_governor"@,
            "min_frequency"@,
            "max_frequency"@,
            "thermal_policy"@,
            "io_scheduler"@,
            "active_rules"@,
            "tars_assessment"@,
        ]);
        m
    }
}

impl Default for PerformanceTuner {
    fn default() -> (t: Self)
        ensures
            t.current_profile == PerformanceProfile::Balanced,
    {
        PerformanceTuner::new()
    }
}

/// Each profile's clock range is well formed: the floor never exceeds the
/// ceiling, and only the faster profiles turn turbo on.
pub proof fn law_profile_clock_ranges(p: PerformanceProfile, before: FrequencyScaling)
    ensures
        profile_scaling(p, before).min_freq_mhz <= profile_scaling(p, before).max_freq_mhz,
        profile_scaling(p, before).turbo_enabled <==> (p == PerformanceProfile::MaxPerformance || p
            == PerformanceProfile::TarsOptimized),
{
}

/// The TARS thresholds rise strictly, so the first one a temperature reaches
/// is the lowest.
pub proof fn law_tars_thresholds_rise()
    ensures
        forall|i: int, j: int| 0 <= i < j < 4 ==> tars_thresholds()[i].temperature < tars_thresholds()[j].temperature,
{
}

/// The profiles are ordered by clock ceiling, whatever the scaling was
/// before: power saving stays strictly below balanced, which stays
/// strictly below the TARS profile, which reaches at most the
/// maximum-performance clock; power saving caps the clock at 1000 MHz and
/// no profile lets its floor exceed its ceiling.
pub proof fn law_profiles_ordered_by_clock_ceiling(before: FrequencyScaling)
    ensures
        profile_scaling(PerformanceProfile::PowerSaver, before).max_freq_mhz
            < profile_scaling(PerformanceProfile::Balanced, before).max_freq_mhz,
        profile_scaling(PerformanceProfile::Balanced, before).max_freq_mhz
            < profile_scaling(PerformanceProfile::TarsOptimized, before).max_freq_mhz,
        profile_scaling(PerformanceProfile::TarsOptimized, before).max_freq_mhz
            <= profile_scaling(PerformanceProfile::MaxPerformance, before).max_freq_mhz,
        profile_scaling(PerformanceProfile::PowerSaver, before).max_freq_mhz == 1000,
        forall|p: PerformanceProfile| #[trigger] profile_scaling(p, before).min_freq_mhz <= profile_scaling(p, before).max_freq_mhz,
        !profile_scaling(PerformanceProfile::PowerSaver, before).turbo_enabled,
        !profile_scaling(PerformanceProfile::Balanced, before).turbo_enabled,
        forall|p: PerformanceProfile| #[trigger] profile_scaling(p, before).min_freq_mhz
            <= profile_scaling(PerformanceProfile::MaxPerformance, before).min_freq_mhz,
        forall|p: PerformanceProfile| #[trigger] profile_scaling(p, before).thermal_throttle_threshold
            == before.thermal_throttle_threshold,
{
}

} // verus!
