//! The health monitor's verdicts and its bounded histories of warnings and
//! throttling events. Sampling the board is the application's part.

use crate::text::{decimal, fmt_u64};
use vstd::hash_map::StringHashMap;
use vstd::prelude::*;

verus! {

broadcast use vstd::string::group_string_axioms;

/// The throttling conditions the firmware reports.
#[derive(Debug, Clone, Copy, PartialEq, Eq, Structural)]
pub enum ThrottleType {
    UnderVoltage,
    ArmFreqCapped,
    CurrentlyThrottled,
    SoftTempLimit,
    UnderVoltageOccurred,
    ArmFreqCappingOccurred,
    ThrottlingOccurred,
    SoftTempLimitOccurred,
}

/// A throttling event, with the temperature in millidegrees Celsius as the
/// thermal zone reports it.
#[derive(Debug, Clone)]
pub struct ThrottleEvent {
    pub timestamp: std::time::SystemTime,
    pub event_type: ThrottleType,
    pub temperature_millidegrees: i64,
    pub duration_ms: u64,
}

/// How many warnings and throttling events the monitor keeps.
pub const HISTORY_LIMIT: usize = 100;

/// The monitor's state.
pub struct HardwareMonitor {
    pub monitoring_active: bool,
    pub sample_interval_ms: u64,
    pub temperature_warnings: Vec<String>,
    pub throttle_events: Vec<ThrottleEvent>,
}

/// The last `n` items of `s`, or all of them where there are fewer.
pub open spec fn keep_last<A>(s: Seq<A>, n: nat) -> Seq<A> {
    if s.len() > n {
        s.subrange(s.len() - n, s.len() as int)
    } else {
        s
    }
}

/// TARS's verdict on a sample, from the whole-number CPU and memory
/// percentages and temperature.
pub open spec fn assessment_text(cpu: u32, memory: u32, temp: u32, throttling: bool) -> Seq<char> {
    if throttling && temp > 80 {
        "TARS: System throttling active due to thermal limits. Performance degraded. It's like trying to run with a spacesuit malfunction. Mission focus: 100%"@
    } else if cpu > 90 || memory > 95 || temp > 85 {
        "TARS: System under severe stress. High resource utilization detected. Like flying too close to a black hole - dangerous territory. Honesty setting: 90%"@
    } else if cpu > 70 || memory > 80 || temp > 75 {
        "TARS: Moderate system load detected. Performance acceptable but monitor closely. Like mission parameters within acceptable limits. Humor setting: 75%"@
    } else if cpu < 30 && memory < 50 && temp < 65 {
        "TARS: System performance optimal. All parameters within nominal ranges. Like a perfectly calibrated spacecraft. Mission focus: 100%"@
    } else {
        "TARS: System status normal. All monitoring parameters within acceptable operational ranges, Cooper."@
    }
}

/// The monitor's closing status line.
pub open spec fn monitor_status_text() -> Seq<char> {
    "TARS: Hardware monitoring systems operational. Continuous system health analysis active."@
}

impl HardwareMonitor {
    /// The histories never grow past the limit.
    pub open spec fn wf(&self) -> bool {
        &&& self.warnings().len() <= HISTORY_LIMIT
        &&& self.events().len() <= HISTORY_LIMIT
    }

    /// The warnings kept, oldest first.
    pub open spec fn warnings(&self) -> Seq<String> {
        self.temperature_warnings@
    }

    /// The throttling events kept, oldest first.
    pub open spec fn events(&self) -> Seq<ThrottleEvent> {
        self.throttle_events@
    }

    /// A stopped monitor sampling every second, with empty histories.
    pub fn new() -> (m: Self)
        ensures
            m.wf(),
            !m.monitoring_active,
            m.sample_interval_ms == 1000,
            m.warnings().len() == 0,
            m.events().len() == 0,
    {
        HardwareMonitor {
            monitoring_active: false,
            sample_interval_ms: 1000,
            temperature_warnings: Vec::new(),
            throttle_events: Vec::new(),
        }
    }

    /// Marks the monitor running; the sampling loop runs while it is.
    pub fn start_monitoring(&mut self)
        ensures
            final(self).monitoring_active,
            final(self).sample_interval_ms == old(self).sample_interval_ms,
            final(self).warnings() == old(self).warnings(),
            final(self).events() == old(self).events(),
    {
        self.monitoring_active = true;
    }

    /// Stops the sampling loop.
    pub fn stop_monitoring(&mut self)
        ensures
            !final(self).monitoring_active,
            final(self).sample_interval_ms == old(self).sample_interval_ms,
            final(self).warnings() == old(self).warnings(),
            final(self).events() == old(self).events(),
    {
        self.monitoring_active = false;
    }

    /// Records a warning, dropping the oldest beyond the limit.
    pub fn record_warning(&mut self, warning: String)
        requires
            old(self).wf(),
        ensures
            final(self).wf(),
            final(self).warnings() == keep_last(old(self).warnings().push(warning), HISTORY_LIMIT as nat),
            final(self).events() == old(self).events(),
            final(self).monitoring_active == old(self).monitoring_active,
            final(self).sample_interval_ms == old(self).sample_interval_ms,
    {
        self.temperature_warnings.push(warning);
        if self.temperature_warnings.len() > HISTORY_LIMIT {
            self.temperature_warnings.remove(0);
            assert(self.temperature_warnings@ =~= keep_last(old(self).temperature_warnings@.push(warning), HISTORY_LIMIT as nat));
        }
    }

    /// Records a throttling event, dropping the oldest beyond the limit.
    pub fn record_throttle_event(&mut self, event: ThrottleEvent)
        requires
            old(self).wf(),
        ensures
            final(self).wf(),
            final(self).events() == keep_last(old(self).events().push(event), HISTORY_LIMIT as nat),
            final(self).warnings() == old(self).warnings(),
            final(self).monitoring_active == old(self).monitoring_active,
            final(self).sample_interval_ms == old(self).sample_interval_ms,
    {
        self.throttle_events.push(event);
        if self.throttle_events.len() > HISTORY_LIMIT {
            self.throttle_events.remove(0);
            assert(self.throttle_events@ =~= keep_last(old(self).throttle_events@.push(event), HISTORY_LIMIT as nat));
        }
    }

    /// TARS's verdict on a sample; the readings are whole numbers, cut from
    /// the measured values.
    pub fn generate_tars_assessment(&self, cpu: u32, memory: u32, temp: u32, throttling: bool) -> (s: String)
        ensures
            s@ == assessment_text(cpu, memory, temp, throttling),
    {
        if throttling && temp > 80 {
            String::from_str(
                "TARS: System throttling active due to thermal limits. Performance degraded. It's like trying to run with a spacesuit malfunction. Mission focus: 100%",
            )
        } else if cpu > 90 || memory > 95 || temp > 85 {
            String::from_str(
                "TARS: System under severe stress. High resource utilization detected. Like flying too close to a black hole - dangerous territory. Honesty setting: 90%",
            )
        } else if cpu > 70 || memory > 80 || temp > 75 {
            String::from_str(
                "TARS: Moderate system load detected. Performance acceptable but monitor closely. Like mission parameters within acceptable limits. Humor setting: 75%",
            )
        } else if cpu < 30 && memory < 50 && temp < 65 {
            String::from_str(
                "TARS: System performance optimal. All parameters within nominal ranges. Like a perfectly calibrated spacecraft. Mission focus: 100%",
            )
        } else {
            String::from_str(
                "TARS: System status normal. All monitoring parameters within acceptable operational ranges, Cooper.",
            )
        }
    }

    /// The warnings kept, oldest first.
    pub fn get_recent_warnings(&self) -> (r: &[String])
        ensures
            r@ == self.warnings(),
    {
        self.temperature_warnings.as_slice()
    }

    /// The throttling events kept, oldest first.
    pub fn get_throttle_history(&self) -> (r: &[ThrottleEvent])
        ensures
            r@ == self.events(),
    {
        self.throttle_events.as_slice()
    }

    /// The monitor's state, key by key; the last warning appears where
    /// there is one.
    pub fn get_health_summary(&self) -> (m: StringHashMap<String>)
        ensures
            m@.dom() == (if self.warnings().len() > 0 {
                set!["monitoring_status"@, "warning_count"@, "throttle_events"@, "last_warning"@, "tars_status"@]
            } else {
                set!["monitoring_status"@, "warning_count"@, "throttle_events"@, "tars_status"@]
            }),
            m@["monitoring_status"@]@ == (if self.monitoring_active {
                "Active"@
            } else {
                "Inactive"@
            }),
            m@["warning_count"@]@ == decimal(self.warnings().len()),
            m@["throttle_events"@]@ == decimal(self.events().len()),
            self.warnings().len() > 0 ==> m@["last_warning"@] == self.warnings().last(),
            m@["tars_status"@]@ == monitor_status_text(),
    {
        proof {
            reveal_strlit("monitoring_status");
            reveal_strlit("warning_count");
            reveal_strlit("throttle_events");
            reveal_strlit("last_warning");
            reveal_strlit("tars_status");
            assert("monitoring_status"@.len() == 17);
            assert("warning_count"@.len() == 13);
            assert("throttle_events"@.len() == 15);
            assert("last_warning"@.len() == 12);
            assert("tars_status"@.len() == 11);
        }
        let mut m: StringHashMap<String> = StringHashMap::new();
        let status = if self.monitoring_active {
            String::from_str("Active")
        } else {
            String::from_str("Inactive")
        };
        m.insert(String::from_str("monitoring_status"), status);
        m.insert(String::from_str("warning_count"), fmt_u64(self.temperature_warnings.len() as u64));
        m.insert(String::from_str("throttle_events"), fmt_u64(self.throttle_events.len() as u64));
        let n = self.temperature_warnings.len();
        if n > 0 {
            m.insert(String::from_str("last_warning"), self.temperature_warnings[n - 1].clone());
        }
        m.insert(
            String::from_str("tars_status"),
            String::from_str("TARS: Hardware monitoring systems operational. Continuous system health analysis active."),
        );
        if n > 0 {
            assert(m@.dom() =~= set!["monitoring_status"@, "warning_count"@, "throttle_events"@, "last_warning"@, "tars_status"@]);
        } else {
            assert(m@.dom() =~= set!["monitoring_status"@, "warning_count"@, "throttle_events"@, "tars_status"@]);
        }
        m
    }
}

impl Default for HardwareMonitor {
    fn default() -> (m: Self)
        ensures
            m.wf(),
            !m.monitoring_active,
            m.sample_interval_ms == 1000,
    {
        HardwareMonitor::new()
    }
}

/// Recording keeps the newest entry and everything kept before it, as far
/// as the limit allows: the history is the last entries of the whole
/// stream, in order.
pub proof fn law_history_keeps_newest<A>(before: Seq<A>, item: A)
    requires
        before.len() <= HISTORY_LIMIT,
    ensures
        keep_last(before.push(item), HISTORY_LIMIT as nat).len() <= HISTORY_LIMIT,
        keep_last(before.push(item), HISTORY_LIMIT as nat).last() == item,
        before.len() < HISTORY_LIMIT ==> keep_last(before.push(item), HISTORY_LIMIT as nat) == before.push(item),
        before.len() == HISTORY_LIMIT ==> keep_last(before.push(item), HISTORY_LIMIT as nat) == before.skip(1).push(item),
{
    if before.len() == HISTORY_LIMIT {
        assert(keep_last(before.push(item), HISTORY_LIMIT as nat) =~= before.skip(1).push(item));
    }
}

/// Throttling above 80 degrees outranks every other verdict.
pub proof fn law_thermal_throttling_dominates(cpu: u32, memory: u32, temp: u32)
    requires
        temp > 80,
    ensures
        assessment_text(cpu, memory, temp, true) == assessment_text(0, 0, temp, true),
{
}

} // verus!
