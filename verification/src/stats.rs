//! Scheduler statistics.
//!
//! Counters are plain integers owned by the scheduler handle; readers get
//! a copy of the whole snapshot.

use vstd::prelude::*;

verus! {

/// Counters and gauges of the whole scheduler.  All counters saturate
/// instead of wrapping, so a reader never sees a counter jump backwards.
#[derive(Clone, Copy, Debug, PartialEq, Eq, Structural, Default)]
pub struct SchedulerStats {
    /// Total context switches across all CPUs.
    pub context_switches: u64,
    /// Involuntary context switches.
    pub preemptions: u64,
    /// Task migrations between CPUs.
    pub migrations: u64,
    /// Load balancing operations.
    pub load_balance_calls: u64,
    /// Scheduler timer ticks processed.
    pub scheduler_ticks: u64,
    /// Failed scheduling attempts.
    pub schedule_failures: u64,
    /// Tasks created.
    pub tasks_created: u64,
    /// Tasks destroyed.
    pub tasks_destroyed: u64,
    /// Real-time throttling events.
    pub rt_throttled: u64,
    /// Deadline misses.
    pub deadline_misses: u64,
    /// CPU idle time in microseconds.
    pub cpu_idle_time: u64,
    /// Average scheduling latency in nanoseconds.
    pub avg_schedule_latency: u64,
    /// Peak scheduling latency in nanoseconds.
    pub peak_schedule_latency: u64,
    /// System load, fixed point, multiplied by 1000.
    pub system_load: u32,
}

impl SchedulerStats {
    /// Fresh statistics: every counter zero.
    pub fn new() -> (r: Self)
        ensures
            r == SchedulerStats::spec_zeroed(),
    {
        SchedulerStats {
            context_switches: 0,
            preemptions: 0,
            migrations: 0,
            load_balance_calls: 0,
            scheduler_ticks: 0,
            schedule_failures: 0,
            tasks_created: 0,
            tasks_destroyed: 0,
            rt_throttled: 0,
            deadline_misses: 0,
            cpu_idle_time: 0,
            avg_schedule_latency: 0,
            peak_schedule_latency: 0,
            system_load: 0,
        }
    }

    /// The all-zero statistics value.
    pub open spec fn spec_zeroed() -> Self {
        SchedulerStats {
            context_switches: 0u64,
            preemptions: 0u64,
            migrations: 0u64,
            load_balance_calls: 0u64,
            scheduler_ticks: 0u64,
            schedule_failures: 0u64,
            tasks_created: 0u64,
            tasks_destroyed: 0u64,
            rt_throttled: 0u64,
            deadline_misses: 0u64,
            cpu_idle_time: 0u64,
            avg_schedule_latency: 0u64,
            peak_schedule_latency: 0u64,
            system_load: 0u32,
        }
    }

    /// The statistics with the resettable counters cleared; the lifetime
    /// counters (ticks, tasks created and destroyed, idle time) and the load
    /// gauge stay.
    pub open spec fn spec_reset(self) -> Self {
        SchedulerStats {
            context_switches: 0u64,
            preemptions: 0u64,
            migrations: 0u64,
            load_balance_calls: 0u64,
            schedule_failures: 0u64,
            rt_throttled: 0u64,
            deadline_misses: 0u64,
            avg_schedule_latency: 0u64,
            peak_schedule_latency: 0u64,
            ..self
        }
    }

    /// Clear the resettable counters.
    pub fn reset(&mut self)
        ensures
            *final(self) == old(self).spec_reset(),
    {
        self.context_switches = 0;
        self.preemptions = 0;
        self.migrations = 0;
        self.load_balance_calls = 0;
        self.schedule_failures = 0;
        self.rt_throttled = 0;
        self.deadline_misses = 0;
        self.avg_schedule_latency = 0;
        self.peak_schedule_latency = 0;
    }

    /// Context switches per second of uptime, rounded down; zero when the
    /// uptime is zero.
    pub fn context_switches_per_sec(&self, uptime_secs: u64) -> (r: u64)
        ensures
            uptime_secs == 0 ==> r == 0,
            uptime_secs > 0 ==> r == self.context_switches as int / uptime_secs as int,
    {
        if uptime_secs == 0 {
            0
        } else {
            self.context_switches / uptime_secs
        }
    }

    /// System load in tenths of a percent (the gauge is stored multiplied
    /// by 1000; one unit of the result is one tenth of a percent).
    pub fn system_load_permille(&self) -> (r: u32)
        ensures
            r == self.system_load,
    {
        self.system_load
    }
}

/// Saturating add on 64-bit counters.
pub open spec fn spec_sat_add(a: u64, b: u64) -> u64 {
    if a + b <= u64::MAX {
        (a + b) as u64
    } else {
        u64::MAX
    }
}

/// Executable form of [`spec_sat_add`].
pub fn sat_add(a: u64, b: u64) -> (r: u64)
    ensures
        r == spec_sat_add(a, b),
{
    if a <= u64::MAX - b {
        a + b
    } else {
        u64::MAX
    }
}

/// Saturating subtract on 64-bit counters.
pub open spec fn spec_sat_sub(a: u64, b: u64) -> u64 {
    if a >= b {
        (a - b) as u64
    } else {
        0u64
    }
}

/// Executable form of [`spec_sat_sub`].
pub fn sat_sub(a: u64, b: u64) -> (r: u64)
    ensures
        r == spec_sat_sub(a, b),
{
    if a >= b {
        a - b
    } else {
        0
    }
}

} // verus!
