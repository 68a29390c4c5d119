//! Configuration of the scheduler core.
//!
//! Times are plain integers: microseconds for slices and intervals,
//! nanoseconds where the clock is involved.  Percentages are integers in
//! `0..=100`.

use vstd::prelude::*;

verus! {

/// Load balancing configuration.
#[derive(Clone, Copy, Debug, PartialEq, Eq, Structural)]
pub struct LoadBalanceConfig {
    /// Enable aggressive load balancing.
    pub aggressive_balance: bool,
    /// Minimum imbalance, in percent of the busiest CPU's load, below which
    /// no task moves.
    pub imbalance_threshold: u32,
    /// Maximum tasks to migrate per balance operation.
    pub max_migrations_per_balance: u32,
    /// Load balance interval in ticks.
    pub balance_interval: u64,
    /// Enable NUMA-aware balancing: cross-node moves need one and a half
    /// times the imbalance threshold.
    pub numa_aware: bool,
}

impl LoadBalanceConfig {
    /// Basic sanity of the balancing parameters.
    pub open spec fn wf(self) -> bool {
        &&& self.imbalance_threshold <= 100
        &&& self.balance_interval >= 1
    }
}

impl Default for LoadBalanceConfig {
    /// The default balancing parameters: a quarter imbalance before any
    /// move, at most four moves per pass, one pass every hundred ticks.
    fn default() -> (r: Self)
        ensures
            r == (LoadBalanceConfig {
                aggressive_balance: false,
                imbalance_threshold: 25u32,
                max_migrations_per_balance: 4u32,
                balance_interval: 100u64,
                numa_aware: true,
            }),
            r.wf(),
    {
        LoadBalanceConfig {
            aggressive_balance: false,
            imbalance_threshold: 25,
            max_migrations_per_balance: 4,
            balance_interval: 100,
            numa_aware: true,
        }
    }
}

/// Configuration of the scheduler core.
#[derive(Clone, Copy, Debug, PartialEq, Eq, Structural)]
pub struct SchedulerConfig {
    /// Allow involuntary context switches.
    pub preemption_enabled: bool,
    /// Scheduling tick frequency in Hz.
    pub tick_frequency: u32,
    /// Default time slice in microseconds: the round-robin slice and the
    /// fair class's scheduling-latency anchor.
    pub default_timeslice: u64,
    /// Load balancing configuration.
    pub load_balance: LoadBalanceConfig,
    /// Emit CPU-frequency and CPU-idle hints.
    pub power_aware: bool,
    /// Ceiling on the real-time plus deadline share of each CPU, percent.
    pub rt_bandwidth_percent: u32,
    /// Enable scheduler debugging output.
    pub debug_enabled: bool,
}

impl SchedulerConfig {
    /// Sanity of the configuration, and the bounds every arithmetic path
    /// of the core relies on.
    pub open spec fn wf(self) -> bool {
        &&& 1 <= self.tick_frequency <= 1_000_000
        &&& 1 <= self.default_timeslice <= 10_000_000
        &&& self.rt_bandwidth_percent <= 100
        &&& self.load_balance.wf()
    }

    /// The default time slice in nanoseconds.
    pub open spec fn spec_timeslice_ns(self) -> u64 {
        (self.default_timeslice * 1000) as u64
    }

    /// Executable form of [`SchedulerConfig::spec_timeslice_ns`].
    pub fn timeslice_ns(&self) -> (r: u64)
        requires
            self.wf(),
        ensures
            r == self.spec_timeslice_ns(),
            1000 <= r <= 10_000_000_000,
    {
        self.default_timeslice * 1000
    }

    /// Check the bounds of [`SchedulerConfig::wf`] at run time.
    pub fn is_valid(&self) -> (r: bool)
        ensures
            r == self.wf(),
    {
        1 <= self.tick_frequency && self.tick_frequency <= 1_000_000
            && 1 <= self.default_timeslice && self.default_timeslice <= 10_000_000
            && self.rt_bandwidth_percent <= 100
            && self.load_balance.imbalance_threshold <= 100
            && self.load_balance.balance_interval >= 1
    }
}

impl Default for SchedulerConfig {
    /// The default configuration: preemption on, a millisecond tick, a ten
    /// millisecond slice, a ceiling of ninety-five percent on the real-time
    /// and deadline share.
    fn default() -> (r: Self)
        ensures
            r == (SchedulerConfig {
                preemption_enabled: true,
                tick_frequency: 1000u32,
                default_timeslice: 10_000u64,
                load_balance: LoadBalanceConfig {
                    aggressive_balance: false,
                    imbalance_threshold: 25u32,
                    max_migrations_per_balance: 4u32,
                    balance_interval: 100u64,
                    numa_aware: true,
                },
                power_aware: true,
                rt_bandwidth_percent: 95u32,
                debug_enabled: false,
            }),
            r.wf(),
    {
        SchedulerConfig {
            preemption_enabled: true,
            tick_frequency: 1000,
            default_timeslice: 10_000,
            load_balance: LoadBalanceConfig::default(),
            power_aware: true,
            rt_bandwidth_percent: 95,
            debug_enabled: false,
        }
    }
}

} // verus!
