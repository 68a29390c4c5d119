//! Pressure-stall information (PSI).
//!
//! For each resource kind (CPU, memory, I/O) the tracker keeps a sliding
//! history of stall pressure and maps the windowed average onto a severity
//! and an advisory scheduling hint.  Pressures are integers in percent,
//! `0..=100`; timestamps are microseconds from the caller's monotonic
//! clock.  The measurements themselves come from an external pressure
//! source and are handed in as plain values.

use vstd::prelude::*;

use crate::policy::SchedulingHint;

verus! {

/// Pressure thresholds, percent, for the severity buckets.
#[derive(Clone, Copy, Debug, PartialEq, Eq, Structural)]
pub struct PSIThresholds {
    /// At or above this: low severity.
    pub low: u64,
    /// At or above this: medium severity.
    pub medium: u64,
    /// At or above this: high severity.
    pub high: u64,
    /// At or above this: critical severity.
    pub critical: u64,
}

impl PSIThresholds {
    /// The buckets are ordered and within the percent range.
    pub open spec fn wf(self) -> bool {
        self.low <= self.medium <= self.high <= self.critical <= 100
    }
}

impl Default for PSIThresholds {
    /// The default buckets: ten, thirty, sixty and ninety percent.
    fn default() -> (r: Self)
        ensures
            r == (PSIThresholds { low: 10u64, medium: 30u64, high: 60u64, critical: 90u64 }),
            r.wf(),
    {
        PSIThresholds { low: 10, medium: 30, high: 60, critical: 90 }
    }
}

/// Severity of the current pressure.
#[derive(Clone, Copy, Debug, PartialEq, Eq, Structural)]
pub enum PSISeverity {
    /// Below every threshold.
    Clear,
    /// At or above the low threshold.
    Low,
    /// At or above the medium threshold.
    Medium,
    /// At or above the high threshold.
    High,
    /// At or above the critical threshold.
    Critical,
}

/// PSI configuration.
#[derive(Clone, Copy, Debug, PartialEq, Eq, Structural)]
pub struct PSIConfig {
    /// Whether pressure monitoring is on.
    pub enabled: bool,
    /// Minimum time between samples, microseconds.
    pub update_interval_us: u64,
    /// Severity thresholds.
    pub thresholds: PSIThresholds,
    /// How many samples the history ring keeps.
    pub history_size: usize,
}

impl PSIConfig {
    /// The default configuration value.
    pub open spec fn spec_default() -> Self {
        PSIConfig {
            enabled: true,
            update_interval_us: 100_000u64,
            thresholds: PSIThresholds { low: 10u64, medium: 30u64, high: 60u64, critical: 90u64 },
            history_size: 60usize,
        }
    }

    /// Sanity of the configuration.
    pub open spec fn wf(self) -> bool {
        &&& 1 <= self.update_interval_us
        &&& self.thresholds.wf()
        &&& 1 <= self.history_size <= 1_000_000
    }

    /// How many samples make up the ten-second severity window.
    pub open spec fn spec_window_len(self) -> int
        recommends
            self.wf(),
    {
        let w = 10_000_000int / (self.update_interval_us as int);
        if w < 1 {
            1
        } else {
            w
        }
    }

    /// Executable form of [`PSIConfig::spec_window_len`].
    pub fn window_len(&self) -> (r: u64)
        requires
            self.wf(),
        ensures
            r == self.spec_window_len(),
            1 <= r <= 10_000_000,
    {
        let w = 10_000_000 / self.update_interval_us;
        if w < 1 {
            1
        } else {
            w
        }
    }
}

impl Default for PSIConfig {
    /// The default configuration: samples every hundred milliseconds, the
    /// default thresholds, sixty samples of history.
    fn default() -> (r: Self)
        ensures
            r == PSIConfig::spec_default(),
            r.wf(),
    {
        PSIConfig {
            enabled: true,
            update_interval_us: 100_000,
            thresholds: PSIThresholds::default(),
            history_size: 60,
        }
    }
}

/// The latest pressure measurements.
#[derive(Clone, Copy, Debug, PartialEq, Eq, Structural)]
pub struct PSIMetrics {
    /// CPU pressure, percent.
    pub cpu_pressure: u64,
    /// Memory pressure, percent.
    pub memory_pressure: u64,
    /// I/O pressure, percent.
    pub io_pressure: u64,
    /// Timestamp of the last update, microseconds.
    pub last_updated: u64,
}

impl PSIMetrics {
    /// All measurements are percentages.
    pub open spec fn wf(self) -> bool {
        self.cpu_pressure <= 100 && self.memory_pressure <= 100 && self.io_pressure <= 100
    }

    /// Fresh metrics: everything zero.
    pub fn new() -> (r: Self)
        ensures
            r == (PSIMetrics {
                cpu_pressure: 0u64,
                memory_pressure: 0u64,
                io_pressure: 0u64,
                last_updated: 0u64,
            }),
    {
        PSIMetrics { cpu_pressure: 0, memory_pressure: 0, io_pressure: 0, last_updated: 0 }
    }

    /// Record a fresh set of measurements.
    pub fn update_with_pressures(&mut self, now_us: u64, cpu: u64, memory: u64, io: u64)
        ensures
            *final(self) == (PSIMetrics {
                cpu_pressure: cpu,
                memory_pressure: memory,
                io_pressure: io,
                last_updated: now_us,
            }),
    {
        self.cpu_pressure = cpu;
        self.memory_pressure = memory;
        self.io_pressure = io;
        self.last_updated = now_us;
    }

    /// The largest of the three pressures.
    pub fn get_max_pressure(&self) -> (r: u64)
        ensures
            r == self.spec_max_pressure(),
    {
        let a = if self.cpu_pressure >= self.memory_pressure {
            self.cpu_pressure
        } else {
            self.memory_pressure
        };
        if a >= self.io_pressure {
            a
        } else {
            self.io_pressure
        }
    }

    /// The largest of the three pressures.
    pub open spec fn spec_max_pressure(self) -> u64 {
        let a = if self.cpu_pressure >= self.memory_pressure {
            self.cpu_pressure
        } else {
            self.memory_pressure
        };
        if a >= self.io_pressure {
            a
        } else {
            self.io_pressure
        }
    }

    /// Whether any pressure exceeds the threshold.
    pub fn exceeds_threshold(&self, threshold: u64) -> (r: bool)
        ensures
            r == (self.spec_max_pressure() > threshold),
    {
        self.get_max_pressure() > threshold
    }

    /// Clear the measurements.
    pub fn reset(&mut self, now_us: u64)
        ensures
            *final(self) == (PSIMetrics {
                cpu_pressure: 0u64,
                memory_pressure: 0u64,
                io_pressure: 0u64,
                last_updated: now_us,
            }),
    {
        self.cpu_pressure = 0;
        self.memory_pressure = 0;
        self.io_pressure = 0;
        self.last_updated = now_us;
    }

    /// Age of the measurements against the caller's clock, saturating
    /// at zero if the clock stepped backwards.
    pub fn get_age(&self, now_us: u64) -> (r: u64)
        ensures
            r == crate::stats::spec_sat_sub(now_us, self.last_updated),
    {
        crate::stats::sat_sub(now_us, self.last_updated)
    }
}

/// One sample in the pressure history.
#[derive(Clone, Copy, Debug, PartialEq, Eq, Structural)]
pub struct PSIHistoryEntry {
    /// When the sample was taken, microseconds.
    pub timestamp: u64,
    /// CPU pressure, percent.
    pub cpu_pressure: u64,
    /// Memory pressure, percent.
    pub memory_pressure: u64,
    /// I/O pressure, percent.
    pub io_pressure: u64,
    /// Severity at the time of the sample.
    pub severity: PSISeverity,
}

impl PSIHistoryEntry {
    /// All pressures of the sample are percentages.
    pub open spec fn wf(self) -> bool {
        self.cpu_pressure <= 100 && self.memory_pressure <= 100 && self.io_pressure <= 100
    }
}

/// Counts of pressure events by severity.  Low and clear samples are not
/// recorded.
#[derive(Clone, Copy, Debug, PartialEq, Eq, Structural)]
pub struct PressureEvents {
    /// Samples that reached medium severity.
    pub medium: u64,
    /// Samples that reached high severity.
    pub high: u64,
    /// Samples that reached critical severity.
    pub critical: u64,
}

/// Sums of the three pressures over a sequence of samples.
pub open spec fn spec_pressure_sums(s: Seq<PSIHistoryEntry>) -> (int, int, int)
    decreases s.len(),
{
    if s.len() == 0 {
        (0, 0, 0)
    } else {
        let rest = spec_pressure_sums(s.drop_last());
        (
            rest.0 + s.last().cpu_pressure,
            rest.1 + s.last().memory_pressure,
            rest.2 + s.last().io_pressure,
        )
    }
}

/// Every sum of percentages over well-formed samples is bounded by a
/// hundred times the sample count.
pub proof fn lemma_pressure_sums_bound(s: Seq<PSIHistoryEntry>)
    requires
        forall|i: int| 0 <= i < s.len() ==> (#[trigger] s[i]).wf(),
    ensures
        0 <= spec_pressure_sums(s).0 <= 100 * s.len(),
        0 <= spec_pressure_sums(s).1 <= 100 * s.len(),
        0 <= spec_pressure_sums(s).2 <= 100 * s.len(),
    decreases s.len(),
{
    if s.len() > 0 {
        assert(forall|i: int| 0 <= i < s.drop_last().len() ==> (#[trigger] s.drop_last()[i]).wf());
        lemma_pressure_sums_bound(s.drop_last());
        assert(s.last().wf());
    }
}

/// The pressure-stall tracker: sliding history, severity and hints.
///
/// The well-formedness invariant [`PSIScheduler::wf`] is established by the
/// constructors and preserved by every operation.
#[derive(Clone, Debug)]
pub struct PSIScheduler {
    /// Configuration.
    pub config: PSIConfig,
    /// Latest measurements.
    pub metrics: PSIMetrics,
    /// Sliding sample history, oldest first.
    pub history: Vec<PSIHistoryEntry>,
    /// When the tracker last accepted a sample, microseconds.
    pub last_update: u64,
    /// Counts of pressure events.
    pub pressure_events: PressureEvents,
}

impl PSIScheduler {
    /// Well-formedness: a sane configuration, a bounded history of
    /// percentage samples, and percentage metrics.
    pub open spec fn wf(self) -> bool {
        &&& self.config.wf()
        &&& self.history@.len() <= self.config.history_size
        &&& forall|i: int| 0 <= i < self.history@.len() ==> (#[trigger] self.history@[i]).wf()
        &&& self.metrics.wf()
    }

    /// A fresh tracker with the default configuration.
    pub fn new() -> (r: Self)
        ensures
            r.wf(),
            r.config == PSIConfig::spec_default(),
            r.history@.len() == 0,
            r.pressure_events == (PressureEvents { medium: 0u64, high: 0u64, critical: 0u64 }),
            r.metrics.spec_max_pressure() == 0,
    {
        Self::with_config(PSIConfig::default())
    }

    /// A fresh tracker with the given configuration.
    pub fn with_config(config: PSIConfig) -> (r: Self)
        requires
            config.wf(),
        ensures
            r.wf(),
            r.config == config,
            r.history@.len() == 0,
            r.pressure_events == (PressureEvents { medium: 0u64, high: 0u64, critical: 0u64 }),
            r.metrics.spec_max_pressure() == 0,
    {
        PSIScheduler {
            config,
            metrics: PSIMetrics::new(),
            history: Vec::new(),
            last_update: 0,
            pressure_events: PressureEvents { medium: 0, high: 0, critical: 0 },
        }
    }

    /// Severity bucket for a pressure value, by the configured thresholds.
    pub open spec fn spec_severity_of(self, pressure: int) -> PSISeverity {
        if pressure >= self.config.thresholds.critical {
            PSISeverity::Critical
        } else if pressure >= self.config.thresholds.high {
            PSISeverity::High
        } else if pressure >= self.config.thresholds.medium {
            PSISeverity::Medium
        } else if pressure >= self.config.thresholds.low {
            PSISeverity::Low
        } else {
            PSISeverity::Clear
        }
    }

    /// Executable form of [`PSIScheduler::spec_severity_of`].
    pub fn calculate_severity(&self, pressure: u64) -> (r: PSISeverity)
        ensures
            r == self.spec_severity_of(pressure as int),
    {
        if pressure >= self.config.thresholds.critical {
            PSISeverity::Critical
        } else if pressure >= self.config.thresholds.high {
            PSISeverity::High
        } else if pressure >= self.config.thresholds.medium {
            PSISeverity::Medium
        } else if pressure >= self.config.thresholds.low {
            PSISeverity::Low
        } else {
            PSISeverity::Clear
        }
    }

    /// The averages of the last `count` samples of `s`, each with `extra`
    /// appended as one more sample, as used by the severity window.
    pub open spec fn spec_window_avg(
        s: Seq<PSIHistoryEntry>,
        count: int,
        cpu: u64,
        memory: u64,
        io: u64,
    ) -> (int, int, int)
        recommends
            0 <= count <= s.len(),
    {
        let sums = spec_pressure_sums(s.subrange(s.len() - count, s.len() as int));
        (
            (sums.0 + cpu) / (count + 1),
            (sums.1 + memory) / (count + 1),
            (sums.2 + io) / (count + 1),
        )
    }

    /// The sample an accepted update appends to the history: the
    /// measurements themselves, stamped with the severity of the largest
    /// windowed average pressure (the window being the ten-second span of
    /// samples ending at this one).
    pub open spec fn spec_new_entry(self, now_us: u64, cpu: u64, memory: u64, io: u64) -> PSIHistoryEntry {
        PSIHistoryEntry {
            timestamp: now_us,
            cpu_pressure: cpu,
            memory_pressure: memory,
            io_pressure: io,
            severity: self.spec_severity_of(
                spec_max3(self.spec_new_sample_window_avg(cpu, memory, io)),
            ),
        }
    }

    /// Accept one set of measurements, if the update interval has passed,
    /// and fold it into metrics, history, events and severity: the new
    /// sample is appended, every earlier sample persists, and only the
    /// oldest one is dropped when the ring is full.
    pub fn update_metrics(&mut self, now_us: u64, cpu: u64, memory: u64, io: u64)
        requires
            old(self).wf(),
            cpu <= 100,
            memory <= 100,
            io <= 100,
        ensures
            final(self).wf(),
            final(self).config == old(self).config,
            old(self).spec_update_gated(now_us) ==> *final(self) == *old(self),
            !old(self).spec_update_gated(now_us) ==> {
                let entry = old(self).spec_new_entry(now_us, cpu, memory, io);
                &&& final(self).metrics == (PSIMetrics {
                    cpu_pressure: cpu,
                    memory_pressure: memory,
                    io_pressure: io,
                    last_updated: now_us,
                })
                &&& final(self).last_update == now_us
                &&& final(self).pressure_events == spec_bump_events(
                    old(self).pressure_events,
                    entry.severity,
                )
                &&& (old(self).history@.len() < old(self).config.history_size
                    ==> final(self).history@ == old(self).history@.push(entry))
                &&& (old(self).history@.len() >= old(self).config.history_size
                    ==> final(self).history@ == old(self).history@.push(entry).remove(0))
            },
    {
        // The very first sample is always accepted; later ones only after
        // the update interval has passed.
        if self.history.len() > 0 && crate::stats::sat_sub(now_us, self.last_update)
            < self.config.update_interval_us {
            return ;
        }
        let (avg_cpu, avg_mem, avg_io) = self.window_avg_with(cpu, memory, io);
        let peak = max3(avg_cpu, avg_mem, avg_io);
        let severity = self.calculate_severity(peak);

        self.metrics.update_with_pressures(now_us, cpu, memory, io);
        self.record_pressure_events(severity);
        let entry = PSIHistoryEntry {
            timestamp: now_us,
            cpu_pressure: cpu,
            memory_pressure: memory,
            io_pressure: io,
            severity,
        };
        self.add_history_entry(entry);
        self.last_update = now_us;
    }

    /// Whether a sample arriving at `now_us` is refused because the
    /// update interval has not yet passed.  The first sample is always
    /// accepted.
    pub open spec fn spec_update_gated(self, now_us: u64) -> bool {
        self.history@.len() > 0 && crate::stats::spec_sat_sub(now_us, self.last_update)
            < self.config.update_interval_us
    }

    /// The windowed average that classifies a new sample taken now.
    pub open spec fn spec_new_sample_window_avg(
        self,
        cpu: u64,
        memory: u64,
        io: u64,
    ) -> (int, int, int) {
        let win = self.config.spec_window_len();
        let count = if win - 1 <= self.history@.len() {
            win - 1
        } else {
            self.history@.len() as int
        };
        Self::spec_window_avg(self.history@, count, cpu, memory, io)
    }

    /// Average of the trailing window of the history plus one new sample.
    fn window_avg_with(&self, cpu: u64, memory: u64, io: u64) -> (r: (u64, u64, u64))
        requires
            self.wf(),
            cpu <= 100,
            memory <= 100,
            io <= 100,
        ensures
            ({
                let a = self.spec_new_sample_window_avg(cpu, memory, io);
                r.0 == a.0 && r.1 == a.1 && r.2 == a.2
            }),
    {
        let win = self.config.window_len();
        let len = self.history.len();
        let count: usize = if win - 1 <= len as u64 {
            (win - 1) as usize
        } else {
            len
        };
        let ghost whole = self.history@;
        let start = len - count;
        let mut sum_cpu: u64 = 0;
        let mut sum_mem: u64 = 0;
        let mut sum_io: u64 = 0;
        let mut i: usize = start;
        proof {
            assert(whole.subrange(start as int, start as int) =~= Seq::<PSIHistoryEntry>::empty());
        }
        while i < len
            invariant
                start <= i <= len,
                len == whole.len(),
                len <= 1_000_000,
                whole == self.history@,
                self.wf(),
                sum_cpu == spec_pressure_sums(whole.subrange(start as int, i as int)).0,
                sum_mem == spec_pressure_sums(whole.subrange(start as int, i as int)).1,
                sum_io == spec_pressure_sums(whole.subrange(start as int, i as int)).2,
                sum_cpu <= 100 * (i - start),
                sum_mem <= 100 * (i - start),
                sum_io <= 100 * (i - start),
            decreases len - i,
        {
            let e = self.history[i];
            proof {
                assert(whole.subrange(start as int, i + 1).drop_last() =~= whole.subrange(
                    start as int,
                    i as int,
                ));
                assert(whole.subrange(start as int, i + 1).last() == whole[i as int]);
                assert(whole[i as int].wf());
            }
            sum_cpu = sum_cpu + e.cpu_pressure;
            sum_mem = sum_mem + e.memory_pressure;
            sum_io = sum_io + e.io_pressure;
            i = i + 1;
        }
        proof {
            assert(whole.subrange(start as int, len as int) =~= whole.subrange(
                whole.len() - count,
                whole.len() as int,
            ));
        }
        let n = count as u64 + 1;
        ((sum_cpu + cpu) / n, (sum_mem + memory) / n, (sum_io + io) / n)
    }

    /// Count a sample at the given severity.  Clear and low samples are
    /// not recorded.
    fn record_pressure_events(&mut self, severity: PSISeverity)
        ensures
            *final(self) == (PSIScheduler {
                pressure_events: spec_bump_events(old(self).pressure_events, severity),
                ..*old(self)
            }),
    {
        match severity {
            PSISeverity::Critical => {
                self.pressure_events.critical = crate::stats::sat_add(
                    self.pressure_events.critical,
                    1,
                );
            },
            PSISeverity::High => {
                self.pressure_events.high = crate::stats::sat_add(self.pressure_events.high, 1);
            },
            PSISeverity::Medium => {
                self.pressure_events.medium = crate::stats::sat_add(self.pressure_events.medium, 1);
            },
            _ => {},
        }
    }

    /// Append a sample, dropping the oldest sample when the ring is full.
    fn add_history_entry(&mut self, entry: PSIHistoryEntry)
        requires
            old(self).wf(),
            entry.wf(),
        ensures
            final(self).wf(),
            final(self).config == old(self).config,
            final(self).metrics == old(self).metrics,
            final(self).last_update == old(self).last_update,
            final(self).pressure_events == old(self).pressure_events,
            old(self).history@.len() < old(self).config.history_size ==> final(self).history@
                == old(self).history@.push(entry),
            old(self).history@.len() >= old(self).config.history_size ==> final(self).history@
                == old(self).history@.push(entry).remove(0),
            final(self).history@.len() >= 1,
            final(self).history@.last() == entry,
    {
        let ghost pushed = self.history@.push(entry);
        if self.history.len() < self.config.history_size {
            self.history.push(entry);
        } else {
            self.history.push(entry);
            self.history.remove(0);
            proof {
                assert(self.history@ =~= pushed.remove(0));
                assert(self.history@.last() == pushed[pushed.len() - 1]);
            }
        }
    }

    /// The latest measurements.
    pub fn get_metrics(&self) -> (r: &PSIMetrics)
        ensures
            *r == self.metrics,
    {
        &self.metrics
    }

    /// Severity of the most recent sample; clear when no sample exists.
    pub open spec fn spec_current_severity(self) -> PSISeverity {
        if self.history@.len() == 0 {
            PSISeverity::Clear
        } else {
            self.history@.last().severity
        }
    }

    /// Executable form of [`PSIScheduler::spec_current_severity`].
    pub fn get_current_severity(&self) -> (r: PSISeverity)
        ensures
            r == self.spec_current_severity(),
    {
        if self.history.len() == 0 {
            PSISeverity::Clear
        } else {
            self.history[self.history.len() - 1].severity
        }
    }

    /// Average pressures over the most recent `entries` samples, as a
    /// `(cpu, memory, io)` triple; all zero when the history is empty.
    pub fn get_average_pressure(&self, entries: usize) -> (r: (u64, u64, u64))
        requires
            self.wf(),
        ensures
            ({
                let count = if entries <= self.history@.len() {
                    entries as int
                } else {
                    self.history@.len() as int
                };
                let s = self.history@;
                if count == 0 {
                    r.0 == 0 && r.1 == 0 && r.2 == 0
                } else {
                    let sums = spec_pressure_sums(s.subrange(s.len() - count, s.len() as int));
                    r.0 == sums.0 / count && r.1 == sums.1 / count && r.2 == sums.2 / count
                }
            }),
    {
        let len = self.history.len();
        let count = if entries <= len {
            entries
        } else {
            len
        };
        if count == 0 {
            return (0, 0, 0);
        }
        let ghost whole = self.history@;
        let start = len - count;
        let mut sum_cpu: u64 = 0;
        let mut sum_mem: u64 = 0;
        let mut sum_io: u64 = 0;
        let mut i: usize = start;
        proof {
            assert(whole.subrange(start as int, start as int) =~= Seq::<PSIHistoryEntry>::empty());
        }
        while i < len
            invariant
                start <= i <= len,
                len == whole.len(),
                len <= 1_000_000,
                whole == self.history@,
                self.wf(),
                sum_cpu == spec_pressure_sums(whole.subrange(start as int, i as int)).0,
                sum_mem == spec_pressure_sums(whole.subrange(start as int, i as int)).1,
                sum_io == spec_pressure_sums(whole.subrange(start as int, i as int)).2,
                sum_cpu <= 100 * (i - start),
                sum_mem <= 100 * (i - start),
                sum_io <= 100 * (i - start),
            decreases len - i,
        {
            let e = self.history[i];
            proof {
                assert(whole.subrange(start as int, i + 1).drop_last() =~= whole.subrange(
                    start as int,
                    i as int,
                ));
                assert(whole.subrange(start as int, i + 1).last() == whole[i as int]);
                assert(whole[i as int].wf());
            }
            sum_cpu = sum_cpu + e.cpu_pressure;
            sum_mem = sum_mem + e.memory_pressure;
            sum_io = sum_io + e.io_pressure;
            i = i + 1;
        }
        proof {
            assert(whole.subrange(start as int, len as int) =~= whole.subrange(
                whole.len() - count,
                whole.len() as int,
            ));
        }
        (sum_cpu / count as u64, sum_mem / count as u64, sum_io / count as u64)
    }

    /// Whether the system is under pressure: severity at least medium.
    pub fn is_under_pressure(&self) -> (r: bool)
        ensures
            r == (self.spec_current_severity() is Medium || self.spec_current_severity() is High
                || self.spec_current_severity() is Critical),
    {
        matches!(
            self.get_current_severity(),
            PSISeverity::Medium | PSISeverity::High | PSISeverity::Critical
        )
    }

    /// Whether the system is under critical pressure.
    pub fn is_critical_pressure(&self) -> (r: bool)
        ensures
            r == (self.spec_current_severity() is Critical),
    {
        matches!(self.get_current_severity(), PSISeverity::Critical)
    }

    /// The pressure event counters.
    pub fn get_pressure_events(&self) -> (r: PressureEvents)
        ensures
            r == self.pressure_events,
    {
        self.pressure_events
    }

    /// Drop all history, metrics and event counts.
    pub fn reset(&mut self, now_us: u64)
        requires
            old(self).wf(),
        ensures
            final(self).wf(),
            final(self).config == old(self).config,
            final(self).history@.len() == 0,
            final(self).last_update == now_us,
            final(self).pressure_events == (PressureEvents {
                medium: 0u64,
                high: 0u64,
                critical: 0u64,
            }),
            final(self).metrics == (PSIMetrics {
                cpu_pressure: 0u64,
                memory_pressure: 0u64,
                io_pressure: 0u64,
                last_updated: now_us,
            }),
    {
        self.metrics.reset(now_us);
        self.history.clear();
        self.pressure_events = PressureEvents { medium: 0, high: 0, critical: 0 };
        self.last_update = now_us;
    }

    /// The configuration.
    pub fn get_config(&self) -> (r: &PSIConfig)
        ensures
            *r == self.config,
    {
        &self.config
    }

    /// Replace the configuration; the history shrinks from the front if
    /// the new ring is smaller.
    pub fn update_config(&mut self, config: PSIConfig)
        requires
            old(self).wf(),
            config.wf(),
        ensures
            final(self).wf(),
            final(self).config == config,
            final(self).metrics == old(self).metrics,
            final(self).pressure_events == old(self).pressure_events,
            final(self).history@.len() <= old(self).history@.len(),
    {
        self.config = config;
        while self.history.len() > self.config.history_size
            invariant
                self.config == config,
                self.metrics == old(self).metrics,
                self.pressure_events == old(self).pressure_events,
                self.last_update == old(self).last_update,
                self.history@.len() <= old(self).history@.len(),
                forall|i: int|
                    0 <= i < self.history@.len() ==> (#[trigger] self.history@[i]).wf(),
                config.wf(),
                self.metrics.wf(),
            decreases self.history@.len(),
        {
            self.history.remove(0);
        }
    }

    /// Switch pressure monitoring on or off.
    pub fn set_enabled(&mut self, enabled: bool)
        requires
            old(self).wf(),
        ensures
            final(self).wf(),
            *final(self) == (PSIScheduler {
                config: PSIConfig { enabled, ..old(self).config },
                ..*old(self)
            }),
    {
        self.config.enabled = enabled;
    }

    /// The advisory hint for the current severity.
    pub open spec fn spec_scheduling_hint(self) -> SchedulingHint {
        match self.spec_current_severity() {
            PSISeverity::Critical => SchedulingHint::ReduceLoad,
            PSISeverity::High => SchedulingHint::LimitNewTasks,
            PSISeverity::Medium => SchedulingHint::PreferLightTasks,
            PSISeverity::Low => SchedulingHint::Normal,
            PSISeverity::Clear => SchedulingHint::Normal,
        }
    }

    /// Executable form of [`PSIScheduler::spec_scheduling_hint`].
    pub fn get_scheduling_hint(&self) -> (r: SchedulingHint)
        ensures
            r == self.spec_scheduling_hint(),
    {
        match self.get_current_severity() {
            PSISeverity::Critical => SchedulingHint::ReduceLoad,
            PSISeverity::High => SchedulingHint::LimitNewTasks,
            PSISeverity::Medium => SchedulingHint::PreferLightTasks,
            PSISeverity::Low => SchedulingHint::Normal,
            PSISeverity::Clear => SchedulingHint::Normal,
        }
    }
}

impl Default for PSIScheduler {
    /// A fresh tracker with the default configuration.
    fn default() -> (r: Self)
        ensures
            r.wf(),
            r.config == PSIConfig::spec_default(),
            r.history@.len() == 0,
    {
        Self::new()
    }
}

/// The largest of three integers.
pub open spec fn spec_max3(t: (int, int, int)) -> int {
    let a = if t.0 >= t.1 {
        t.0
    } else {
        t.1
    };
    if a >= t.2 {
        a
    } else {
        t.2
    }
}

/// Executable maximum of three percentages.
pub fn max3(a: u64, b: u64, c: u64) -> (r: u64)
    ensures
        r == spec_max3((a as int, b as int, c as int)),
{
    let x = if a >= b {
        a
    } else {
        b
    };
    if x >= c {
        x
    } else {
        c
    }
}

/// The event counters after counting one sample of the given severity.
pub open spec fn spec_bump_events(e: PressureEvents, severity: PSISeverity) -> PressureEvents {
    match severity {
        PSISeverity::Critical => PressureEvents {
            critical: crate::stats::spec_sat_add(e.critical, 1),
            ..e
        },
        PSISeverity::High => PressureEvents { high: crate::stats::spec_sat_add(e.high, 1), ..e },
        PSISeverity::Medium => PressureEvents {
            medium: crate::stats::spec_sat_add(e.medium, 1),
            ..e
        },
        _ => e,
    }
}

} // verus!
