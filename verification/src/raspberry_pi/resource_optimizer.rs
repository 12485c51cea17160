//! Memory, process and swap tuning of the board, and the rules that the
//! optimizer switches on for each performance profile.

use crate::raspberry_pi::{PerformanceProfile, RaspberryPiConfig};
use crate::text::{decimal, fmt_i64, fmt_u64, join2, push_line, signed_decimal, strings_view};
use vstd::prelude::*;

verus! {

broadcast use vstd::string::group_string_axioms;

/// The kinds of optimization a rule performs.
#[derive(Debug, Clone, Copy, PartialEq, Eq, Structural)]
pub enum OptimizationType {
    MemoryCompaction,
    ProcessPriorityAdjustment,
    SwapOptimization,
    CacheTuning,
    NetworkOptimization,
    IOScheduling,
    ThermalManagement,
}

/// One optimization rule: when it applies, what it does, and whether it is
/// switched on.
#[derive(Debug, Clone)]
pub struct OptimizationRule {
    pub name: String,
    pub rule_type: OptimizationType,
    pub condition: String,
    pub action: String,
    pub priority: u8,
    pub enabled: bool,
    pub last_applied: Option<std::time::SystemTime>,
}

/// Kernel memory-management settings.
#[derive(Debug, Clone, Copy, PartialEq, Eq, Structural)]
pub struct MemoryManager {
    pub aggressive_reclaim: bool,
    pub swap_tendency: u8,
    pub dirty_ratio: u8,
    pub cache_pressure: u8,
}

/// Nice levels of the process classes, and the OOM-killer adjustment.
#[derive(Debug, Clone, Copy, PartialEq, Eq, Structural)]
pub struct ProcessManager {
    pub tars_priority: i8,
    pub ai_model_priority: i8,
    pub system_service_priority: i8,
    pub background_task_priority: i8,
    pub oom_killer_adjustment: i8,
}

/// Swap and zswap settings.
#[derive(Debug, Clone)]
pub struct SwapManager {
    pub enabled: bool,
    pub swappiness: u8,
    pub swap_file_size_mb: u32,
    pub zswap_enabled: bool,
    pub zswap_compressor: String,
}

/// The optimizer: its rules and the settings it manages.
#[derive(Debug, Clone)]
pub struct ResourceOptimizer {
    pub active_optimizations: Vec<OptimizationRule>,
    pub memory_management: MemoryManager,
    pub process_manager: ProcessManager,
    pub swap_management: SwapManager,
}

/// The stock memory settings.
pub open spec fn default_memory() -> MemoryManager {
    MemoryManager { aggressive_reclaim: true, swap_tendency: 60, dirty_ratio: 20, cache_pressure: 100 }
}

/// The stock process priorities.
pub open spec fn default_priorities() -> ProcessManager {
    ProcessManager {
        tars_priority: -5i8,
        ai_model_priority: 0,
        system_service_priority: 0,
        background_task_priority: 5,
        oom_killer_adjustment: 0,
    }
}

/// The stock swap settings: 2 GB of swap, zswap with lz4.
pub open spec fn is_default_swap(s: SwapManager) -> bool {
    &&& s.enabled
    &&& s.swappiness == 60
    &&& s.swap_file_size_mb == 2048
    &&& s.zswap_enabled
    &&& s.zswap_compressor@ == "lz4"@
}

impl Default for MemoryManager {
    fn default() -> (m: Self)
        ensures
            m == default_memory(),
    {
        MemoryManager { aggressive_reclaim: true, swap_tendency: 60, dirty_ratio: 20, cache_pressure: 100 }
    }
}

impl Default for ProcessManager {
    fn default() -> (p: Self)
        ensures
            p == default_priorities(),
    {
        ProcessManager {
            tars_priority: -5,
            ai_model_priority: 0,
            system_service_priority: 0,
            background_task_priority: 5,
            oom_killer_adjustment: 0,
        }
    }
}

impl Default for SwapManager {
    fn default() -> (s: Self)
        ensures
            is_default_swap(s),
    {
        SwapManager {
            enabled: true,
            swappiness: 60,
            swap_file_size_mb: 2048,
            zswap_enabled: true,
            zswap_compressor: String::from_str("lz4"),
        }
    }
}

/// Whether `r` is the rule with these fields, switched on and never applied.
pub open spec fn is_rule(
    r: OptimizationRule,
    name: Seq<char>,
    rule_type: OptimizationType,
    condition: Seq<char>,
    action: Seq<char>,
    priority: u8,
) -> bool {
    &&& r.name@ == name
    &&& r.rule_type == rule_type
    &&& r.condition@ == condition
    &&& r.action@ == action
    &&& r.priority == priority
    &&& r.enabled
    &&& r.last_applied is None
}

/// The five rules the optimizer starts with.
pub open spec fn is_default_rule_set(v: Seq<OptimizationRule>) -> bool {
    &&& v.len() == 5
    &&& is_rule(v[0], "Emergency Memory Compaction"@, OptimizationType::MemoryCompaction, "memory_usage > 95%"@, "compact_memory"@, 10)
    &&& is_rule(v[1], "TARS Process Priority"@, OptimizationType::ProcessPriorityAdjustment, "always"@, "renice_tars_processes"@, 8)
    &&& is_rule(v[2], "Swap Optimization"@, OptimizationType::SwapOptimization, "memory_pressure > 80%"@, "optimize_swap_usage"@, 7)
    &&& is_rule(v[3], "Cache Pressure Relief"@, OptimizationType::CacheTuning, "memory_usage > 85%"@, "drop_caches"@, 6)
    &&& is_rule(v[4], "Thermal Throttling Prevention"@, OptimizationType::ThermalManagement, "temperature > 75°C"@, "reduce_cpu_frequency"@, 9)
}

/// Two rule lists hold the same rules, switched on or off as may be.
pub open spec fn same_rules(a: Seq<OptimizationRule>, b: Seq<OptimizationRule>) -> bool {
    &&& a.len() == b.len()
    &&& forall|i: int|
        0 <= i < a.len() ==> {
            &&& (#[trigger] a[i]).name == b[i].name
            &&& a[i].rule_type == b[i].rule_type
            &&& a[i].condition == b[i].condition
            &&& a[i].action == b[i].action
            &&& a[i].priority == b[i].priority
            &&& a[i].last_applied == b[i].last_applied
        }
}

/// The number of rules that are switched on.
pub open spec fn enabled_count(v: Seq<OptimizationRule>) -> nat
    decreases v.len(),
{
    if v.len() == 0 {
        0
    } else {
        enabled_count(v.drop_last()) + if v.last().enabled {
            1nat
        } else {
            0nat
        }
    }
}

/// The profile that the report names for a swap tendency and a TARS nice
/// level.
pub open spec fn profile_label(swap_tendency: u8, tars_priority: i8) -> Seq<char> {
    if swap_tendency <= 20 && -20 <= tars_priority <= -10 {
        "Maximum Performance"@
    } else if 21 <= swap_tendency <= 40 && -15 <= tars_priority <= -5 {
        "TARS Optimized"@
    } else if 41 <= swap_tendency <= 80 && -5 <= tars_priority <= 5 {
        "Balanced"@
    } else {
        "Power Saving"@
    }
}

/// The optimizer's report.
pub open spec fn optimization_report(enabled: nat, total: nat, label: Seq<char>) -> Seq<char> {
    "TARS: Resource optimization system operational, Cooper. "@ + decimal(enabled) + " of "@
        + decimal(total) + " optimization rules active. Memory management configured for "@ + label
        + " profile. System optimization protocols engaged. Mission focus: 100%"@
}

/// The rule kinds each profile switches on.
pub open spec fn profile_rule_types(p: PerformanceProfile) -> Seq<OptimizationType> {
    match p {
        PerformanceProfile::MaxPerformance => seq![
            OptimizationType::ProcessPriorityAdjustment,
            OptimizationType::CacheTuning,
            OptimizationType::IOScheduling,
        ],
        PerformanceProfile::TarsOptimized => seq![
            OptimizationType::MemoryCompaction,
            OptimizationType::ProcessPriorityAdjustment,
            OptimizationType::SwapOptimization,
            OptimizationType::CacheTuning,
            OptimizationType::ThermalManagement,
        ],
        PerformanceProfile::Balanced => seq![
            OptimizationType::MemoryCompaction,
            OptimizationType::ProcessPriorityAdjustment,
            OptimizationType::SwapOptimization,
        ],
        PerformanceProfile::PowerSaver => seq![
            OptimizationType::MemoryCompaction,
            OptimizationType::SwapOptimization,
            OptimizationType::ThermalManagement,
        ],
    }
}

/// The memory settings of each profile.
pub open spec fn profile_memory(p: PerformanceProfile) -> MemoryManager {
    match p {
        PerformanceProfile::MaxPerformance => MemoryManager { aggressive_reclaim: false, swap_tendency: 10, dirty_ratio: 40, cache_pressure: 50 },
        PerformanceProfile::TarsOptimized => MemoryManager { aggressive_reclaim: true, swap_tendency: 20, dirty_ratio: 20, cache_pressure: 100 },
        PerformanceProfile::Balanced => MemoryManager { aggressive_reclaim: true, swap_tendency: 60, dirty_ratio: 20, cache_pressure: 100 },
        PerformanceProfile::PowerSaver => MemoryManager { aggressive_reclaim: true, swap_tendency: 100, dirty_ratio: 5, cache_pressure: 200 },
    }
}

/// The process priorities of each profile; the OOM adjustment is set by the
/// TARS profile alone, the others keep the one before.
pub open spec fn profile_priorities(p: PerformanceProfile, before: ProcessManager) -> ProcessManager {
    match p {
        PerformanceProfile::MaxPerformance => ProcessManager { tars_priority: -10i8, ai_model_priority: -5i8, system_service_priority: 0, background_task_priority: 10, ..before },
        PerformanceProfile::TarsOptimized => ProcessManager { tars_priority: -15i8, ai_model_priority: -10i8, system_service_priority: 5, background_task_priority: 15, oom_killer_adjustment: -17i8 },
        PerformanceProfile::Balanced => ProcessManager { tars_priority: -5i8, ai_model_priority: 0, system_service_priority: 0, background_task_priority: 5, ..before },
        PerformanceProfile::PowerSaver => ProcessManager { tars_priority: 0, ai_model_priority: 5, system_service_priority: 0, background_task_priority: 19, ..before },
    }
}

fn rule(
    name: &str,
    rule_type: OptimizationType,
    condition: &str,
    action: &str,
    priority: u8,
) -> (r: OptimizationRule)
    ensures
        is_rule(r, name@, rule_type, condition@, action@, priority),
{
    OptimizationRule {
        name: String::from_str(name),
        rule_type,
        condition: String::from_str(condition),
        action: String::from_str(action),
        priority,
        enabled: true,
        last_applied: None,
    }
}

fn contains_type(types: &[OptimizationType], t: OptimizationType) -> (r: bool)
    ensures
        r == types@.contains(t),
{
    let mut i: usize = 0;
    while i < types.len()
        invariant
            i <= types@.len(),
            forall|j: int| 0 <= j < i ==> types@[j] != t,
        decreases types@.len() - i,
    {
        if types[i] == t {
            assert(types@[i as int] == t);
            return true;
        }
        i = i + 1;
    }
    false
}

impl ResourceOptimizer {
    /// An optimizer with the default rules and stock settings.
    pub fn new() -> (o: Self)
        ensures
            is_default_rule_set(o.active_optimizations@),
            o.memory_management == default_memory(),
            o.process_manager == default_priorities(),
            is_default_swap(o.swap_management),
    {
        ResourceOptimizer {
            active_optimizations: ResourceOptimizer::create_default_rules(),
            memory_management: MemoryManager::default(),
            process_manager: ProcessManager::default(),
            swap_management: SwapManager::default(),
        }
    }

    /// The five default rules, all switched on.
    pub fn create_default_rules() -> (v: Vec<OptimizationRule>)
        ensures
            is_default_rule_set(v@),
    {
        let mut v: Vec<OptimizationRule> = Vec::new();
        v.push(rule("Emergency Memory Compaction", OptimizationType::MemoryCompaction, "memory_usage > 95%", "compact_memory", 10));
        v.push(rule("TARS Process Priority", OptimizationType::ProcessPriorityAdjustment, "always", "renice_tars_processes", 8));
        v.push(rule("Swap Optimization", OptimizationType::SwapOptimization, "memory_pressure > 80%", "optimize_swap_usage", 7));
        v.push(rule("Cache Pressure Relief", OptimizationType::CacheTuning, "memory_usage > 85%", "drop_caches", 6));
        v.push(rule("Thermal Throttling Prevention", OptimizationType::ThermalManagement, "temperature > 75°C", "reduce_cpu_frequency", 9));
        v
    }

    /// Switches on exactly the rules whose kind is listed, and switches off
    /// the others.
    pub fn enable_optimization_rules(&mut self, rule_types: &[OptimizationType])
        ensures
            same_rules(final(self).active_optimizations@, old(self).active_optimizations@),
            forall|i: int|
                0 <= i < final(self).active_optimizations@.len() ==> (#[trigger] final(self).active_optimizations@[i]).enabled
                    == rule_types@.contains(final(self).active_optimizations@[i].rule_type),
            final(self).memory_management == old(self).memory_management,
            final(self).process_manager == old(self).process_manager,
            final(self).swap_management == old(self).swap_management,
    {
        let ghost before = self.active_optimizations@;
        let mut i: usize = 0;
        while i < self.active_optimizations.len()
            invariant
                i <= self.active_optimizations@.len(),
                same_rules(self.active_optimizations@, before),
                forall|j: int|
                    0 <= j < i ==> (#[trigger] self.active_optimizations@[j]).enabled
                        == rule_types@.contains(self.active_optimizations@[j].rule_type),
                self.memory_management == old(self).memory_management,
                self.process_manager == old(self).process_manager,
                self.swap_management == old(self).swap_management,
            decreases self.active_optimizations@.len() - i,
        {
            let on = contains_type(rule_types, self.active_optimizations[i].rule_type);
            self.active_optimizations[i].enabled = on;
            i = i + 1;
        }
    }

    fn set_profile_rules(&mut self, p: PerformanceProfile)
        ensures
            same_rules(final(self).active_optimizations@, old(self).active_optimizations@),
            forall|i: int|
                0 <= i < final(self).active_optimizations@.len() ==> (#[trigger] final(self).active_optimizations@[i]).enabled
                    == profile_rule_types(p).contains(final(self).active_optimizations@[i].rule_type),
            final(self).memory_management == old(self).memory_management,
            final(self).process_manager == old(self).process_manager,
            final(self).swap_management == old(self).swap_management,
    {
        let mut types: Vec<OptimizationType> = Vec::new();
        match p {
            PerformanceProfile::MaxPerformance => {
                types.push(OptimizationType::ProcessPriorityAdjustment);
                types.push(OptimizationType::CacheTuning);
                types.push(OptimizationType::IOScheduling);
            },
            PerformanceProfile::TarsOptimized => {
                types.push(OptimizationType::MemoryCompaction);
                types.push(OptimizationType::ProcessPriorityAdjustment);
                types.push(OptimizationType::SwapOptimization);
                types.push(OptimizationType::CacheTuning);
                types.push(OptimizationType::ThermalManagement);
            },
            PerformanceProfile::Balanced => {
                types.push(OptimizationType::MemoryCompaction);
                types.push(OptimizationType::ProcessPriorityAdjustment);
                types.push(OptimizationType::SwapOptimization);
            },
            PerformanceProfile::PowerSaver => {
                types.push(OptimizationType::MemoryCompaction);
                types.push(OptimizationType::SwapOptimization);
                types.push(OptimizationType::ThermalManagement);
            },
        }
        assert(types@ =~= profile_rule_types(p));
        self.enable_optimization_rules(types.as_slice());
    }

    fn apply_max_performance_optimizations(&mut self, config: &RaspberryPiConfig)
        ensures
            final(self).memory_management == profile_memory(PerformanceProfile::MaxPerformance),
            final(self).process_manager == profile_priorities(PerformanceProfile::MaxPerformance, old(self).process_manager),
            final(self).swap_management.enabled == old(self).swap_management.enabled,
            final(self).swap_management.swap_file_size_mb == old(self).swap_management.swap_file_size_mb,
            config.memory_limit_mb > 4096 ==> {
                &&& final(self).swap_management.swappiness == 1
                &&& final(self).swap_management.zswap_enabled
                &&& final(self).swap_management.zswap_compressor@ == "lz4"@
            },
            config.memory_limit_mb <= 4096 ==> final(self).swap_management == old(self).swap_management,
            same_rules(final(self).active_optimizations@, old(self).active_optimizations@),
            forall|i: int|
                0 <= i < final(self).active_optimizations@.len() ==> (#[trigger] final(self).active_optimizations@[i]).enabled
                    == profile_rule_types(PerformanceProfile::MaxPerformance).contains(final(self).active_optimizations@[i].rule_type),
    {
        self.memory_management.aggressive_reclaim = false;
        self.memory_management.swap_tendency = 10;
        self.memory_management.dirty_ratio = 40;
        self.memory_management.cache_pressure = 50;
        self.process_manager.tars_priority = -10;
        self.process_manager.ai_model_priority = -5;
        self.process_manager.system_service_priority = 0;
        self.process_manager.background_task_priority = 10;
        if config.memory_limit_mb > 4096 {
            self.swap_management.swappiness = 1;
            self.swap_management.zswap_enabled = true;
            self.swap_management.zswap_compressor = String::from_str("lz4");
        }
        self.set_profile_rules(PerformanceProfile::MaxPerformance);
    }

    fn apply_profile_settings(&mut self, p: PerformanceProfile, swappiness: u8, compressor: &str)
        requires
            p != PerformanceProfile::MaxPerformance,
        ensures
            final(self).memory_management == profile_memory(p),
            final(self).process_manager == profile_priorities(p, old(self).process_manager),
            final(self).swap_management.swappiness == swappiness,
            final(self).swap_management.zswap_enabled,
            final(self).swap_management.zswap_compressor@ == compressor@,
            final(self).swap_management.enabled == old(self).swap_management.enabled,
            final(self).swap_management.swap_file_size_mb == old(self).swap_management.swap_file_size_mb,
            same_rules(final(self).active_optimizations@, old(self).active_optimizations@),
            forall|i: int|
                0 <= i < final(self).active_optimizations@.len() ==> (#[trigger] final(self).active_optimizations@[i]).enabled
                    == profile_rule_types(p).contains(final(self).active_optimizations@[i].rule_type),
    {
        match p {
            PerformanceProfile::TarsOptimized => {
                self.memory_management = MemoryManager { aggressive_reclaim: true, swap_tendency: 20, dirty_ratio: 20, cache_pressure: 100 };
                self.process_manager = ProcessManager {
                    tars_priority: -15,
                    ai_model_priority: -10,
                    system_service_priority: 5,
                    background_task_priority: 15,
                    oom_killer_adjustment: -17,
                };
            },
            PerformanceProfile::Balanced => {
                self.memory_management = MemoryManager { aggressive_reclaim: true, swap_tendency: 60, dirty_ratio: 20, cache_pressure: 100 };
                self.process_manager.tars_priority = -5;
                self.process_manager.ai_model_priority = 0;
                self.process_manager.system_service_priority = 0;
                self.process_manager.background_task_priority = 5;
            },
            _ => {
                self.memory_management = MemoryManager { aggressive_reclaim: true, swap_tendency: 100, dirty_ratio: 5, cache_pressure: 200 };
                self.process_manager.tars_priority = 0;
                self.process_manager.ai_model_priority = 5;
                self.process_manager.system_service_priority = 0;
                self.process_manager.background_task_priority = 19;
            },
        }
        self.swap_management.swappiness = swappiness;
        self.swap_management.zswap_enabled = true;
        self.swap_management.zswap_compressor = String::from_str(compressor);
        self.set_profile_rules(p);
    }

    /// Tunes memory, priorities, swap and rules for the configuration's
    /// performance profile.
    pub fn optimize_for_config(&mut self, config: &RaspberryPiConfig)
        ensures
            final(self).memory_management == profile_memory(config.performance_profile),
            final(self).process_manager == profile_priorities(config.performance_profile, old(self).process_manager),
            same_rules(final(self).active_optimizations@, old(self).active_optimizations@),
            forall|i: int|
                0 <= i < final(self).active_optimizations@.len() ==> (#[trigger] final(self).active_optimizations@[i]).enabled
                    == profile_rule_types(config.performance_profile).contains(final(self).active_optimizations@[i].rule_type),
            final(self).swap_management.enabled == old(self).swap_management.enabled,
            final(self).swap_management.swap_file_size_mb == old(self).swap_management.swap_file_size_mb,
            config.performance_profile == PerformanceProfile::TarsOptimized ==> final(self).swap_management.swappiness == 30
                && final(self).swap_management.zswap_enabled && final(self).swap_management.zswap_compressor@ == "zstd"@,
            config.performance_profile == PerformanceProfile::Balanced ==> final(self).swap_management.swappiness == 60
                && final(self).swap_management.zswap_enabled && final(self).swap_management.zswap_compressor@ == "lz4"@,
            config.performance_profile == PerformanceProfile::PowerSaver ==> final(self).swap_management.swappiness == 100
                && final(self).swap_management.zswap_enabled && final(self).swap_management.zswap_compressor@ == "lzo"@,
            config.performance_profile == PerformanceProfile::MaxPerformance ==> if config.memory_limit_mb > 4096 {
                final(self).swap_management.swappiness == 1 && final(self).swap_management.zswap_enabled
                    && final(self).swap_management.zswap_compressor@ == "lz4"@
            } else {
                final(self).swap_management == old(self).swap_management
            },
    {
        match config.performance_profile {
            PerformanceProfile::MaxPerformance => self.apply_max_performance_optimizations(config),
            PerformanceProfile::TarsOptimized => self.apply_profile_settings(PerformanceProfile::TarsOptimized, 30, "zstd"),
            PerformanceProfile::Balanced => self.apply_profile_settings(PerformanceProfile::Balanced, 60, "lz4"),
            PerformanceProfile::PowerSaver => self.apply_profile_settings(PerformanceProfile::PowerSaver, 100, "lzo"),
        }
    }

    /// The optimizer's report: how many rules are on, and the profile that
    /// the memory and priority settings amount to.
    pub fn get_tars_optimization_report(&self) -> (r: String)
        ensures
            r@ == optimization_report(
                enabled_count(self.active_optimizations@),
                self.active_optimizations@.len(),
                profile_label(self.memory_management.swap_tendency, self.process_manager.tars_priority),
            ),
    {
        let mut enabled: usize = 0;
        let mut i: usize = 0;
        while i < self.active_optimizations.len()
            invariant
                i <= self.active_optimizations@.len(),
                enabled == enabled_count(self.active_optimizations@.take(i as int)),
                enabled <= i,
            decreases self.active_optimizations@.len() - i,
        {
            assert(self.active_optimizations@.take(i as int + 1).drop_last() =~= self.active_optimizations@.take(i as int));
            if self.active_optimizations[i].enabled {
                enabled = enabled + 1;
            }
            i = i + 1;
        }
        assert(self.active_optimizations@.take(self.active_optimizations@.len() as int) =~= self.active_optimizations@);
        let swap = self.memory_management.swap_tendency;
        let nice = self.process_manager.tars_priority;
        let label = if swap <= 20 && -20 <= nice && nice <= -10 {
            "Maximum Performance"
        } else if 21 <= swap && swap <= 40 && -15 <= nice && nice <= -5 {
            "TARS Optimized"
        } else if 41 <= swap && swap <= 80 && -5 <= nice && nice <= 5 {
            "Balanced"
        } else {
            "Power Saving"
        };
        let e = fmt_u64(enabled as u64);
        let t = fmt_u64(self.active_optimizations.len() as u64);
        let mut r = join2("TARS: Resource optimization system operational, Cooper. ", e.as_str());
        r.append(" of ");
        r.append(t.as_str());
        r.append(" optimization rules active. Memory management configured for ");
        r.append(label);
        r.append(" profile. System optimization protocols engaged. Mission focus: 100%");
        r
    }

    /// The messages of the memory step, for the sysctl writes that
    /// succeeded: `written` tells, in order, whether `vm.swappiness`,
    /// `vm.dirty_ratio` and `vm.vfs_cache_pressure` were written.
    pub fn memory_optimization_results(&self, written: [bool; 3]) -> (v: Vec<String>)
        ensures
            strings_view(v@) == flag_lines(written[0], "Set swappiness to "@ + decimal(self.memory_management.swap_tendency as nat))
                + flag_lines(written[1], "Set dirty ratio to "@ + decimal(self.memory_management.dirty_ratio as nat))
                + flag_lines(written[2], "Set cache pressure to "@ + decimal(self.memory_management.cache_pressure as nat)),
    {
        let mut v: Vec<String> = Vec::new();
        let ghost mut exp: Seq<Seq<char>> = Seq::empty();
        if written[0] {
            let n = fmt_u64(self.memory_management.swap_tendency as u64);
            push_line(&mut v, join2("Set swappiness to ", n.as_str()));
        }
        proof {
            exp = exp + flag_lines(written[0], "Set swappiness to "@ + decimal(self.memory_management.swap_tendency as nat));
        }
        assert(strings_view(v@) =~= exp);
        if written[1] {
            let n = fmt_u64(self.memory_management.dirty_ratio as u64);
            push_line(&mut v, join2("Set dirty ratio to ", n.as_str()));
        }
        proof {
            exp = exp + flag_lines(written[1], "Set dirty ratio to "@ + decimal(self.memory_management.dirty_ratio as nat));
        }
        assert(strings_view(v@) =~= exp);
        if written[2] {
            let n = fmt_u64(self.memory_management.cache_pressure as u64);
            push_line(&mut v, join2("Set cache pressure to ", n.as_str()));
        }
        proof {
            exp = exp + flag_lines(written[2], "Set cache pressure to "@ + decimal(self.memory_management.cache_pressure as nat));
        }
        assert(strings_view(v@) =~= exp);
        v
    }

    /// The messages of the process step: the TARS and AI-model priorities.
    pub fn apply_process_optimizations(&self) -> (v: Vec<String>)
        ensures
            strings_view(v@) == seq![
                "TARS process priority set to "@ + signed_decimal(self.process_manager.tars_priority as int),
                "AI model priority set to "@ + signed_decimal(self.process_manager.ai_model_priority as int),
            ],
    {
        let mut v: Vec<String> = Vec::new();
        let t = fmt_i64(self.process_manager.tars_priority as i64);
        push_line(&mut v, join2("TARS process priority set to ", t.as_str()));
        let a = fmt_i64(self.process_manager.ai_model_priority as i64);
        push_line(&mut v, join2("AI model priority set to ", a.as_str()));
        assert(strings_view(v@) =~= seq![
            "TARS process priority set to "@ + signed_decimal(self.process_manager.tars_priority as int),
            "AI model priority set to "@ + signed_decimal(self.process_manager.ai_model_priority as int),
        ]);
        v
    }

    /// Whether the swap step writes zswap's parameters at all.
    pub fn configures_zswap(&self) -> (r: bool)
        ensures
            r == (self.swap_management.enabled && self.swap_management.zswap_enabled),
    {
        self.swap_management.enabled && self.swap_management.zswap_enabled
    }

    /// The messages of the swap step, for the zswap parameter writes that
    /// succeeded (`enabled`, then `compressor`); nothing where zswap is not
    /// configured.
    pub fn swap_optimization_results(&self, enabled_written: bool, compressor_written: bool) -> (v: Vec<String>)
        ensures
            strings_view(v@) == if self.swap_management.enabled && self.swap_management.zswap_enabled {
                flag_lines(enabled_written, "Enabled zswap compression"@) + flag_lines(
                    compressor_written,
                    "Set zswap compressor to "@ + self.swap_management.zswap_compressor@,
                )
            } else {
                Seq::empty()
            },
    {
        let mut v: Vec<String> = Vec::new();
        if self.configures_zswap() {
            if enabled_written {
                push_line(&mut v, String::from_str("Enabled zswap compression"));
            }
            let ghost head = strings_view(v@);
            assert(head =~= flag_lines(enabled_written, "Enabled zswap compression"@));
            if compressor_written {
                push_line(&mut v, join2("Set zswap compressor to ", self.swap_management.zswap_compressor.as_str()));
            }
            assert(strings_view(v@) =~= head + flag_lines(
                compressor_written,
                "Set zswap compressor to "@ + self.swap_management.zswap_compressor@,
            ));
        } else {
            assert(strings_view(v@) =~= Seq::<Seq<char>>::empty());
        }
        v
    }
}

/// Whether applying a rule succeeds: compaction and cache tuning succeed
/// where their `/proc` write did, the other kinds always.
pub open spec fn rule_applies(t: OptimizationType, write_ok: bool) -> bool {
    match t {
        OptimizationType::MemoryCompaction => write_ok,
        OptimizationType::CacheTuning => write_ok,
        _ => true,
    }
}

/// The `/proc` file a rule writes to, where it writes one.
pub open spec fn rule_proc_file(t: OptimizationType) -> Option<Seq<char>> {
    match t {
        OptimizationType::MemoryCompaction => Some("/proc/sys/vm/compact_memory"@),
        OptimizationType::CacheTuning => Some("/proc/sys/vm/drop_caches"@),
        _ => None,
    }
}

/// A line that stands only where a flag is set.
pub open spec fn flag_lines(flag: bool, line: Seq<char>) -> Seq<Seq<char>> {
    if flag {
        seq![line]
    } else {
        Seq::empty()
    }
}

/// The `/proc` file that applying a rule of this kind writes "1" to, if any.
pub fn rule_write_target(t: OptimizationType) -> (r: Option<&'static str>)
    ensures
        match r {
            Some(p) => rule_proc_file(t) == Some(p@),
            None => rule_proc_file(t) is None,
        },
{
    match t {
        OptimizationType::MemoryCompaction => Some("/proc/sys/vm/compact_memory"),
        OptimizationType::CacheTuning => Some("/proc/sys/vm/drop_caches"),
        _ => None,
    }
}

/// The outcome of applying a rule, given whether its `/proc` write (where it
/// has one) succeeded.
pub fn apply_optimization_rule(t: OptimizationType, write_ok: bool) -> (r: Result<(), String>)
    ensures
        r is Ok <==> rule_applies(t, write_ok),
        r matches Err(m) ==> m@ == "Failed to apply optimization rule"@,
{
    if rule_applies_exec(t, write_ok) {
        Ok(())
    } else {
        Err(String::from_str("Failed to apply optimization rule"))
    }
}

fn rule_applies_exec(t: OptimizationType, write_ok: bool) -> (r: bool)
    ensures
        r == rule_applies(t, write_ok),
{
    match t {
        OptimizationType::MemoryCompaction => write_ok,
        OptimizationType::CacheTuning => write_ok,
        _ => true,
    }
}

/// Switching rules on for a list of kinds twice is the same as once.
pub proof fn law_enabling_is_idempotent(a: Seq<OptimizationRule>, b: Seq<OptimizationRule>, c: Seq<OptimizationRule>, types: Seq<OptimizationType>)
    requires
        same_rules(b, a),
        forall|i: int| 0 <= i < b.len() ==> (#[trigger] b[i]).enabled == types.contains(b[i].rule_type),
        same_rules(c, b),
        forall|i: int| 0 <= i < c.len() ==> (#[trigger] c[i]).enabled == types.contains(c[i].rule_type),
    ensures
        c == b,
{
    assert forall|i: int| 0 <= i < c.len() implies c[i] == b[i] by {
        assert(c[i].enabled == b[i].enabled);
    }
    assert(c =~= b);
}

/// The count of rules switched on never exceeds the number of rules.
pub proof fn law_enabled_count_bounded(v: Seq<OptimizationRule>)
    ensures
        enabled_count(v) <= v.len(),
    decreases v.len(),
{
    if v.len() > 0 {
        law_enabled_count_bounded(v.drop_last());
    }
}

} // verus!
