//! CPU-frequency control (DVFS).
//!
//! The hardware driver is an external collaborator: its frequency table,
//! its default frequency and the thermal sensor reading are handed in as
//! plain values.  This module owns the decision logic: safe limits, the
//! minimum interval between transitions, the thermal rule and the
//! governor policy.  Timestamps are microseconds from the caller's
//! monotonic clock.

use vstd::prelude::*;

use crate::errors::SchedError;
use crate::policy::Governor;
use crate::stats::{sat_sub, spec_sat_sub};

verus! {

/// Lowest frequency a change request ever accepts, Hz.
pub const MIN_SAFE_FREQUENCY: u64 = 400_000_000;

/// Highest frequency a change request ever accepts, Hz.
pub const MAX_SAFE_FREQUENCY: u64 = 5_000_000_000;

/// Minimum time between two frequency changes, microseconds.
pub const FREQ_CHANGE_MIN_INTERVAL_US: u64 = 10_000;

/// Above this temperature increases are limited to a tenth, Celsius.
pub const THERMAL_THROTTLE_TEMP: u64 = 85;

/// Above this temperature increases are forbidden, Celsius.
pub const THERMAL_CRITICAL_TEMP: u64 = 95;

/// Hardware description handed to [`CpuFreqControl::init_with_config`].
#[derive(Clone, Debug)]
pub struct CpuFreqConfig {
    /// The frequencies the hardware offers, Hz.
    pub available_frequencies: Vec<u64>,
    /// The frequency restored by default, Hz; must be offered.
    pub default_frequency: u64,
    /// The governor selected at start.
    pub default_governor: Governor,
}

impl CpuFreqConfig {
    /// Sanity: a non-empty table of safe frequencies offering the default.
    pub open spec fn wf(self) -> bool {
        &&& 1 <= self.available_frequencies@.len() <= 1024
        &&& forall|i: int|
            0 <= i < self.available_frequencies@.len() ==> MIN_SAFE_FREQUENCY <= #[trigger] self
                .available_frequencies@[i] <= MAX_SAFE_FREQUENCY
        &&& self.available_frequencies@.contains(self.default_frequency)
    }
}

/// Frequency statistics and monitoring data.
#[derive(Clone, Debug)]
pub struct CpuFreqStats {
    /// Current frequency, Hz.
    pub current_frequency: u64,
    /// Lowest offered frequency, Hz.
    pub min_frequency: u64,
    /// Highest offered frequency, Hz.
    pub max_frequency: u64,
    /// Average frequency over the last measurement period, Hz.
    pub average_frequency: u64,
    /// Current governor.
    pub current_governor: Governor,
    /// Number of frequency transitions.
    pub transition_count: u64,
    /// Time spent at each frequency level, `(frequency_hz, time_us)`.
    pub frequency_time: Vec<(u64, u64)>,
    /// Current CPU temperature, Celsius, if a sensor reported one.
    pub temperature: Option<u64>,
    /// Whether the thermal rule is limiting increases.
    pub thermal_throttled: bool,
    /// Power consumption estimate in milliwatts, if available.
    pub power_consumption: Option<u64>,
}

/// Thermal throttling information.
#[derive(Clone, Copy, Debug, PartialEq, Eq, Structural)]
pub struct ThermalInfo {
    /// Current temperature, Celsius.
    pub temperature: u64,
    /// Whether the thermal rule is limiting increases.
    pub throttled: bool,
    /// The frequency ceiling while throttled.
    pub throttle_frequency: Option<u64>,
    /// Time spent throttled, microseconds.
    pub throttle_time: u64,
}

/// Distance between two frequencies.
pub open spec fn spec_dist(a: u64, target: int) -> int {
    if a >= target {
        a - target
    } else {
        target - a
    }
}

/// The smallest value of a non-empty sequence.
pub open spec fn spec_seq_min(s: Seq<u64>) -> u64
    recommends
        s.len() >= 1,
    decreases s.len(),
{
    if s.len() <= 1 {
        s[0]
    } else {
        let rest = spec_seq_min(s.drop_last());
        if s.last() < rest {
            s.last()
        } else {
            rest
        }
    }
}

/// The largest value of a non-empty sequence.
pub open spec fn spec_seq_max(s: Seq<u64>) -> u64
    recommends
        s.len() >= 1,
    decreases s.len(),
{
    if s.len() <= 1 {
        s[0]
    } else {
        let rest = spec_seq_max(s.drop_last());
        if s.last() > rest {
            s.last()
        } else {
            rest
        }
    }
}

/// The element of a non-empty sequence closest to `target`; the smaller
/// value wins a tie.
pub open spec fn spec_closest(s: Seq<u64>, target: int) -> u64
    recommends
        s.len() >= 1,
    decreases s.len(),
{
    if s.len() <= 1 {
        s[0]
    } else {
        let rest = spec_closest(s.drop_last(), target);
        if spec_dist(s.last(), target) < spec_dist(rest, target) || (spec_dist(s.last(), target)
            == spec_dist(rest, target) && s.last() < rest) {
            s.last()
        } else {
            rest
        }
    }
}

/// The smallest element of `s` that is at least `target`, if any.
pub open spec fn spec_min_at_least(s: Seq<u64>, target: u64) -> Option<u64>
    decreases s.len(),
{
    if s.len() == 0 {
        Option::None
    } else {
        let rest = spec_min_at_least(s.drop_last(), target);
        if s.last() >= target {
            match rest {
                Option::Some(m) => if s.last() < m {
                    Option::Some(s.last())
                } else {
                    Option::Some(m)
                },
                Option::None => Option::Some(s.last()),
            }
        } else {
            rest
        }
    }
}

/// The CPU-frequency control handle.
///
/// [`CpuFreqControl::wf`] is established by the constructors and preserved
/// by every operation.
#[derive(Clone, Debug)]
pub struct CpuFreqControl {
    /// Whether the control was initialized.
    pub initialized: bool,
    /// The frequencies the hardware offers, Hz.
    pub available: Vec<u64>,
    /// Current frequency, Hz.
    pub current: u64,
    /// The frequency restored by default, Hz.
    pub default_frequency: u64,
    /// Current governor.
    pub governor: Governor,
    /// When the frequency last changed, microseconds.
    pub last_change_us: u64,
    /// Number of frequency transitions.
    pub transition_count: u64,
    /// Latest thermal sensor reading, Celsius.
    pub temperature: u64,
    /// Time spent with the thermal rule closed, microseconds.
    pub throttle_time: u64,
}

impl CpuFreqControl {
    /// Well-formedness: once initialized, the table is sane and both the
    /// current and the default frequency are offered.
    pub open spec fn wf(self) -> bool {
        self.initialized ==> {
            &&& 1 <= self.available@.len() <= 1024
            &&& forall|i: int|
                0 <= i < self.available@.len() ==> MIN_SAFE_FREQUENCY <= #[trigger] self
                    .available@[i] <= MAX_SAFE_FREQUENCY
            &&& self.available@.contains(self.current)
            &&& self.available@.contains(self.default_frequency)
        }
    }

    /// A fresh, uninitialized control.
    pub fn new() -> (r: Self)
        ensures
            r.wf(),
            !r.initialized,
            r.temperature == 25,
            r.transition_count == 0,
    {
        CpuFreqControl {
            initialized: false,
            available: Vec::new(),
            current: 0,
            default_frequency: 0,
            governor: Governor::Ondemand,
            last_change_us: 0,
            transition_count: 0,
            temperature: 25,
            throttle_time: 0,
        }
    }

    /// Initialize with a conventional laptop-like frequency table.
    pub fn init(&mut self) -> (r: Result<(), SchedError>)
        requires
            old(self).wf(),
        ensures
            final(self).wf(),
            r is Ok,
            final(self).initialized,
            old(self).initialized ==> *final(self) == *old(self),
            !old(self).initialized ==> {
                &&& final(self).current == 2_000_000_000
                &&& final(self).default_frequency == 2_000_000_000
                &&& final(self).governor == Governor::Ondemand
            },
    {
        let mut freqs: Vec<u64> = Vec::new();
        freqs.push(800_000_000);
        freqs.push(1_200_000_000);
        freqs.push(1_600_000_000);
        freqs.push(2_000_000_000);
        freqs.push(2_400_000_000);
        freqs.push(3_000_000_000);
        proof {
            assert(freqs@[3] == 2_000_000_000);
        }
        let config = CpuFreqConfig {
            available_frequencies: freqs,
            default_frequency: 2_000_000_000,
            default_governor: Governor::Ondemand,
        };
        self.init_with_config(config)
    }

    /// Initialize from a hardware description.  Initializing twice is
    /// accepted and changes nothing; an ill-formed description is refused.
    pub fn init_with_config(&mut self, config: CpuFreqConfig) -> (r: Result<(), SchedError>)
        requires
            old(self).wf(),
        ensures
            final(self).wf(),
            old(self).initialized ==> r is Ok && *final(self) == *old(self),
            !old(self).initialized && !config.wf() ==> r == Result::<(), SchedError>::Err(
                SchedError::InvalidParameter,
            ) && *final(self) == *old(self),
            !old(self).initialized && config.wf() ==> {
                &&& r is Ok
                &&& final(self).initialized
                &&& final(self).available@ == config.available_frequencies@
                &&& final(self).current == config.default_frequency
                &&& final(self).default_frequency == config.default_frequency
                &&& final(self).governor == config.default_governor
                &&& final(self).temperature == old(self).temperature
                &&& final(self).transition_count == 0
            },
    {
        if self.initialized {
            return Ok(());
        }
        if !Self::config_is_valid(&config) {
            return Err(SchedError::InvalidParameter);
        }
        self.available = config.available_frequencies;
        self.current = config.default_frequency;
        self.default_frequency = config.default_frequency;
        self.governor = config.default_governor;
        self.transition_count = 0;
        self.initialized = true;
        Ok(())
    }

    /// Run-time check of [`CpuFreqConfig::wf`].
    fn config_is_valid(config: &CpuFreqConfig) -> (r: bool)
        ensures
            r == config.wf(),
    {
        let n = config.available_frequencies.len();
        if n < 1 || n > 1024 {
            return false;
        }
        let mut i: usize = 0;
        let mut sane = true;
        let mut has_default = false;
        while i < n
            invariant
                0 <= i <= n,
                n == config.available_frequencies@.len(),
                sane == (forall|j: int|
                    0 <= j < i ==> MIN_SAFE_FREQUENCY <= #[trigger] config.available_frequencies@[j]
                        <= MAX_SAFE_FREQUENCY),
                has_default == config.available_frequencies@.subrange(0, i as int).contains(
                    config.default_frequency,
                ),
            decreases n - i,
        {
            let f = config.available_frequencies[i];
            if f < MIN_SAFE_FREQUENCY || f > MAX_SAFE_FREQUENCY {
                sane = false;
            }
            if f == config.default_frequency {
                has_default = true;
            }
            proof {
                let s = config.available_frequencies@;
                let d = config.default_frequency;
                if s[i as int] == d {
                    assert(s.subrange(0, i + 1)[i as int] == d);
                    assert(s.subrange(0, i + 1).contains(d));
                } else if s.subrange(0, i as int).contains(d) {
                    let k = choose|k: int|
                        0 <= k < i && #[trigger] s.subrange(0, i as int)[k] == d;
                    assert(s.subrange(0, i + 1)[k] == d);
                    assert(s.subrange(0, i + 1).contains(d));
                } else {
                    assert forall|k: int| 0 <= k < i + 1 implies #[trigger] s.subrange(
                        0,
                        i + 1,
                    )[k] != d by {
                        if k < i {
                            assert(s.subrange(0, i as int)[k] == s.subrange(0, i + 1)[k]);
                        }
                    }
                }
            }
            i = i + 1;
        }
        proof {
            assert(config.available_frequencies@.subrange(0, n as int)
                =~= config.available_frequencies@);
        }
        sane && has_default
    }

    /// The current frequency.
    pub fn get_current_frequency(&self) -> (r: Result<u64, SchedError>)
        ensures
            !self.initialized ==> r == Result::<u64, SchedError>::Err(SchedError::NotInitialized),
            self.initialized ==> r == Result::<u64, SchedError>::Ok(self.current),
    {
        if !self.initialized {
            return Err(SchedError::NotInitialized);
        }
        Ok(self.current)
    }

    /// The outcome of a frequency change request: the error the request
    /// runs into, or nothing when every check passes.  The checks run in
    /// this order: initialization, rate limit, safe range,
    /// availability, the critical thermal rule (no increases above the
    /// critical temperature), and the throttle thermal rule (increases
    /// limited to a tenth above the throttle temperature).
    pub open spec fn spec_set_freq_err(self, now_us: u64, frequency: u64) -> Option<SchedError> {
        if !self.initialized {
            Option::Some(SchedError::NotInitialized)
        } else if self.transition_count > 0 && spec_sat_sub(now_us, self.last_change_us)
            < FREQ_CHANGE_MIN_INTERVAL_US {
            Option::Some(SchedError::RateLimited)
        } else if frequency < MIN_SAFE_FREQUENCY || frequency > MAX_SAFE_FREQUENCY {
            Option::Some(SchedError::InvalidFrequency)
        } else if !self.available@.contains(frequency) {
            Option::Some(SchedError::UnsupportedFrequency)
        } else if self.temperature > THERMAL_CRITICAL_TEMP && frequency > self.current {
            Option::Some(SchedError::ThermalThrottled)
        } else if self.temperature > THERMAL_THROTTLE_TEMP && frequency > self.current && frequency
            > self.current + self.current / 10 {
            Option::Some(SchedError::ThermalThrottled)
        } else {
            Option::None
        }
    }

    /// The control after a successful frequency change.
    pub open spec fn spec_set_freq_post(self, now_us: u64, frequency: u64) -> CpuFreqControl {
        CpuFreqControl {
            current: frequency,
            last_change_us: now_us,
            transition_count: crate::stats::spec_sat_add(self.transition_count, 1),
            ..self
        }
    }

    /// Change the CPU frequency, subject to every check of
    /// [`CpuFreqControl::spec_set_freq_err`].
    pub fn set_frequency(&mut self, now_us: u64, frequency: u64) -> (r: Result<(), SchedError>)
        requires
            old(self).wf(),
        ensures
            final(self).wf(),
            match old(self).spec_set_freq_err(now_us, frequency) {
                Option::Some(e) => r == Result::<(), SchedError>::Err(e) && *final(self) == *old(
                    self,
                ),
                Option::None => r is Ok && *final(self) == old(self).spec_set_freq_post(
                    now_us,
                    frequency,
                ),
            },
    {
        if !self.initialized {
            return Err(SchedError::NotInitialized);
        }
        if self.transition_count > 0 && sat_sub(now_us, self.last_change_us)
            < FREQ_CHANGE_MIN_INTERVAL_US {
            return Err(SchedError::RateLimited);
        }
        if frequency < MIN_SAFE_FREQUENCY || frequency > MAX_SAFE_FREQUENCY {
            return Err(SchedError::InvalidFrequency);
        }
        if !contains_u64(&self.available, frequency) {
            return Err(SchedError::UnsupportedFrequency);
        }
        if self.temperature > THERMAL_CRITICAL_TEMP && frequency > self.current {
            return Err(SchedError::ThermalThrottled);
        }
        if self.temperature > THERMAL_THROTTLE_TEMP && frequency > self.current {
            let max_allowed = self.current + self.current / 10;
            if frequency > max_allowed {
                return Err(SchedError::ThermalThrottled);
            }
        }
        self.current = frequency;
        self.last_change_us = now_us;
        self.transition_count = crate::stats::sat_add(self.transition_count, 1);
        Ok(())
    }

    /// A copy of the frequency table.
    pub fn get_available_frequencies(&self) -> (r: Result<Vec<u64>, SchedError>)
        ensures
            !self.initialized ==> r == Result::<Vec<u64>, SchedError>::Err(
                SchedError::NotInitialized,
            ),
            self.initialized ==> r is Ok && r.unwrap()@ == self.available@,
    {
        if !self.initialized {
            return Err(SchedError::NotInitialized);
        }
        let mut out: Vec<u64> = Vec::new();
        let mut i: usize = 0;
        while i < self.available.len()
            invariant
                0 <= i <= self.available@.len(),
                out@ == self.available@.subrange(0, i as int),
            decreases self.available@.len() - i,
        {
            out.push(self.available[i]);
            proof {
                assert(out@ =~= self.available@.subrange(0, i + 1));
            }
            i = i + 1;
        }
        proof {
            assert(out@ =~= self.available@);
        }
        Ok(out)
    }

    /// The lowest offered frequency.
    pub fn get_min_frequency(&self) -> (r: Result<u64, SchedError>)
        requires
            self.wf(),
        ensures
            !self.initialized ==> r == Result::<u64, SchedError>::Err(SchedError::NotInitialized),
            self.initialized ==> r == Result::<u64, SchedError>::Ok(spec_seq_min(self.available@)),
    {
        if !self.initialized {
            return Err(SchedError::NotInitialized);
        }
        Ok(seq_min_exec(&self.available))
    }

    /// The highest offered frequency.
    pub fn get_max_frequency(&self) -> (r: Result<u64, SchedError>)
        requires
            self.wf(),
        ensures
            !self.initialized ==> r == Result::<u64, SchedError>::Err(SchedError::NotInitialized),
            self.initialized ==> r == Result::<u64, SchedError>::Ok(spec_seq_max(self.available@)),
    {
        if !self.initialized {
            return Err(SchedError::NotInitialized);
        }
        Ok(seq_max_exec(&self.available))
    }

    /// Restore the default frequency, through the same checks as
    /// [`CpuFreqControl::set_frequency`].
    pub fn restore_default_frequency(&mut self, now_us: u64) -> (r: Result<(), SchedError>)
        requires
            old(self).wf(),
        ensures
            final(self).wf(),
            match old(self).spec_set_freq_err(now_us, old(self).default_frequency) {
                Option::Some(e) => r == Result::<(), SchedError>::Err(e) && *final(self) == *old(
                    self,
                ),
                Option::None => r is Ok && *final(self) == old(self).spec_set_freq_post(
                    now_us,
                    old(self).default_frequency,
                ),
            },
    {
        let f = self.default_frequency;
        self.set_frequency(now_us, f)
    }

    /// Select a governor.
    pub fn set_governor(&mut self, governor: Governor) -> (r: Result<(), SchedError>)
        requires
            old(self).wf(),
        ensures
            final(self).wf(),
            !old(self).initialized ==> r == Result::<(), SchedError>::Err(
                SchedError::NotInitialized,
            ) && *final(self) == *old(self),
            old(self).initialized ==> r is Ok && *final(self) == (CpuFreqControl {
                governor,
                ..*old(self)
            }),
    {
        if !self.initialized {
            return Err(SchedError::NotInitialized);
        }
        self.governor = governor;
        Ok(())
    }

    /// The current governor.
    pub fn get_current_governor(&self) -> (r: Result<Governor, SchedError>)
        ensures
            !self.initialized ==> r == Result::<Governor, SchedError>::Err(
                SchedError::NotInitialized,
            ),
            self.initialized ==> r == Result::<Governor, SchedError>::Ok(self.governor),
    {
        if !self.initialized {
            return Err(SchedError::NotInitialized);
        }
        Ok(self.governor)
    }

    /// A statistics snapshot.
    pub fn get_frequency_stats(&self) -> (r: Result<CpuFreqStats, SchedError>)
        requires
            self.wf(),
        ensures
            !self.initialized ==> r == Result::<CpuFreqStats, SchedError>::Err(
                SchedError::NotInitialized,
            ),
            self.initialized ==> r is Ok && ({
                let s = r.unwrap();
                &&& s.current_frequency == self.current
                &&& s.min_frequency == spec_seq_min(self.available@)
                &&& s.max_frequency == spec_seq_max(self.available@)
                &&& s.average_frequency == self.current
                &&& s.current_governor == self.governor
                &&& s.transition_count == self.transition_count
                &&& s.temperature == Option::Some(self.temperature)
                &&& s.thermal_throttled == (self.temperature > THERMAL_THROTTLE_TEMP)
            }),
    {
        if !self.initialized {
            return Err(SchedError::NotInitialized);
        }
        Ok(
            CpuFreqStats {
                current_frequency: self.current,
                min_frequency: seq_min_exec(&self.available),
                max_frequency: seq_max_exec(&self.available),
                average_frequency: self.current,
                current_governor: self.governor,
                transition_count: self.transition_count,
                frequency_time: Vec::new(),
                temperature: Some(self.temperature),
                thermal_throttled: self.temperature > THERMAL_THROTTLE_TEMP,
                power_consumption: None,
            },
        )
    }

    /// The thermal rule's view of the sensor.
    pub fn get_thermal_info(&self) -> (r: Result<ThermalInfo, SchedError>)
        ensures
            !self.initialized ==> r == Result::<ThermalInfo, SchedError>::Err(
                SchedError::NotInitialized,
            ),
            self.initialized ==> r == Result::<ThermalInfo, SchedError>::Ok(ThermalInfo {
                temperature: self.temperature,
                throttled: self.temperature > THERMAL_THROTTLE_TEMP,
                throttle_frequency: if self.temperature > THERMAL_THROTTLE_TEMP {
                    Option::Some(self.current)
                } else {
                    Option::None
                },
                throttle_time: self.throttle_time,
            }),
    {
        if !self.initialized {
            return Err(SchedError::NotInitialized);
        }
        Ok(
            ThermalInfo {
                temperature: self.temperature,
                throttled: self.temperature > THERMAL_THROTTLE_TEMP,
                throttle_frequency: if self.temperature > THERMAL_THROTTLE_TEMP {
                    Some(self.current)
                } else {
                    None
                },
                throttle_time: self.throttle_time,
            },
        )
    }

    /// Record a thermal sensor reading, Celsius.
    pub fn set_thermal_input(&mut self, temperature: u64)
        requires
            old(self).wf(),
        ensures
            final(self).wf(),
            *final(self) == (CpuFreqControl { temperature, ..*old(self) }),
    {
        self.temperature = temperature;
    }

    /// Clear the transition and throttle counters.
    pub fn reset_frequency_stats(&mut self) -> (r: Result<(), SchedError>)
        requires
            old(self).wf(),
        ensures
            final(self).wf(),
            !old(self).initialized ==> r == Result::<(), SchedError>::Err(
                SchedError::NotInitialized,
            ) && *final(self) == *old(self),
            old(self).initialized ==> r is Ok && *final(self) == (CpuFreqControl {
                transition_count: 0u64,
                throttle_time: 0u64,
                ..*old(self)
            }),
    {
        if !self.initialized {
            return Err(SchedError::NotInitialized);
        }
        self.transition_count = 0;
        self.throttle_time = 0;
        Ok(())
    }

    /// The frequency that intelligent scaling aims for at the given load:
    /// the maximum above eighty percent load, the minimum below twenty,
    /// and in between the offered frequency closest to the proportional
    /// point between minimum and maximum (the smaller wins a tie).
    pub open spec fn spec_scale_target(self, cpu_load: u32) -> u64
        recommends
            self.available@.len() >= 1,
            cpu_load <= 100,
    {
        if cpu_load > 80 {
            spec_seq_max(self.available@)
        } else if cpu_load < 20 {
            spec_seq_min(self.available@)
        } else {
            let lo = spec_seq_min(self.available@);
            let hi = spec_seq_max(self.available@);
            spec_closest(self.available@, lo + (hi - lo) * cpu_load / 100)
        }
    }

    /// The frequency intelligent scaling selects: the target, raised to
    /// the smallest offered frequency at or above it when the latency
    /// goal is under a millisecond.
    pub open spec fn spec_scale_choice(self, cpu_load: u32, target_latency_us: u64) -> u64 {
        let target = self.spec_scale_target(cpu_load);
        if target_latency_us < 1000 {
            match spec_min_at_least(self.available@, target) {
                Option::Some(f) => f,
                Option::None => target,
            }
        } else {
            target
        }
    }

    /// Scale the frequency for the given CPU load and latency goal.  The
    /// selected frequency is applied through the checks of
    /// [`CpuFreqControl::set_frequency`] when it differs from the current
    /// one; a refused change leaves the frequency unchanged.
    pub fn scale_frequency_intelligent(
        &mut self,
        now_us: u64,
        cpu_load: u32,
        target_latency_us: u64,
    ) -> (r: Result<u64, SchedError>)
        requires
            old(self).wf(),
        ensures
            final(self).wf(),
            !old(self).initialized ==> r == Result::<u64, SchedError>::Err(
                SchedError::NotInitialized,
            ) && *final(self) == *old(self),
            old(self).initialized && cpu_load > 100 ==> r == Result::<u64, SchedError>::Err(
                SchedError::InvalidParameter,
            ) && *final(self) == *old(self),
            old(self).initialized && cpu_load <= 100 ==> {
                let choice = old(self).spec_scale_choice(cpu_load, target_latency_us);
                if choice == old(self).current {
                    r == Result::<u64, SchedError>::Ok(choice) && *final(self) == *old(self)
                } else {
                    match old(self).spec_set_freq_err(now_us, choice) {
                        Option::Some(e) => r == Result::<u64, SchedError>::Err(e) && *final(self)
                            == *old(self),
                        Option::None => r == Result::<u64, SchedError>::Ok(choice) && *final(self)
                            == old(self).spec_set_freq_post(now_us, choice),
                    }
                }
            },
    {
        if !self.initialized {
            return Err(SchedError::NotInitialized);
        }
        if cpu_load > 100 {
            return Err(SchedError::InvalidParameter);
        }
        let lo = seq_min_exec(&self.available);
        let hi = seq_max_exec(&self.available);
        let target_freq: u64 = if cpu_load > 80 {
            hi
        } else if cpu_load < 20 {
            lo
        } else {
            proof {
                lemma_seq_min_le_max(self.available@);
                lemma_seq_min_max_contained(self.available@);
                assert(hi <= MAX_SAFE_FREQUENCY);
                let span = hi as int - lo as int;
                assert(span * cpu_load <= span * 100 && span * 100 <= MAX_SAFE_FREQUENCY as int
                    * 100) by (nonlinear_arith)
                    requires cpu_load <= 100, 0 <= span <= MAX_SAFE_FREQUENCY as int;
                assert(span * cpu_load / 100 <= span) by (nonlinear_arith)
                    requires 0 <= span, cpu_load <= 100;
            }
            let point = lo + (hi - lo) * (cpu_load as u64) / 100;
            closest_exec(&self.available, point)
        };
        let selected: u64 = if target_latency_us < 1000 {
            match min_at_least_exec(&self.available, target_freq) {
                Some(f) => f,
                None => target_freq,
            }
        } else {
            target_freq
        };
        if selected != self.current {
            match self.set_frequency(now_us, selected) {
                Ok(_) => {},
                Err(e) => {
                    return Err(e);
                },
            }
        }
        Ok(selected)
    }

    /// Whether frequency scaling is initialized and usable.
    pub fn is_supported(&self) -> (r: bool)
        ensures
            r == self.initialized,
    {
        self.initialized
    }

    /// Shut frequency management down: try to restore the default
    /// frequency, fall back to the conservative governor, and mark the
    /// control uninitialized.
    pub fn shutdown(&mut self, now_us: u64) -> (r: Result<(), SchedError>)
        requires
            old(self).wf(),
        ensures
            final(self).wf(),
            r is Ok,
            !final(self).initialized,
            !old(self).initialized ==> *final(self) == *old(self),
            old(self).initialized ==> *final(self) == (CpuFreqControl {
                governor: Governor::Conservative,
                initialized: false,
                ..(match old(self).spec_set_freq_err(now_us, old(self).default_frequency) {
                    Option::Some(_) => *old(self),
                    Option::None => old(self).spec_set_freq_post(
                        now_us,
                        old(self).default_frequency,
                    ),
                })
            }),
    {
        if !self.initialized {
            return Ok(());
        }
        // A refusal here only means the default frequency could not be
        // restored in time; shutdown proceeds regardless.
        let now = now_us;
        let _ = self.restore_default_frequency(now);
        self.governor = Governor::Conservative;
        self.initialized = false;
        Ok(())
    }

    /// Performance mode: the performance governor at the highest offered
    /// frequency.
    pub fn set_performance_mode(&mut self, now_us: u64) -> (r: Result<(), SchedError>)
        requires
            old(self).wf(),
        ensures
            final(self).wf(),
            !old(self).initialized ==> r == Result::<(), SchedError>::Err(
                SchedError::NotInitialized,
            ) && *final(self) == *old(self),
            old(self).initialized ==> {
                let mid = CpuFreqControl { governor: Governor::Performance, ..*old(self) };
                let top = spec_seq_max(old(self).available@);
                match mid.spec_set_freq_err(now_us, top) {
                    Option::Some(e) => r == Result::<(), SchedError>::Err(e) && *final(self) == mid,
                    Option::None => r is Ok && *final(self) == mid.spec_set_freq_post(now_us, top),
                }
            },
    {
        match self.set_governor(Governor::Performance) {
            Ok(_) => {},
            Err(e) => {
                return Err(e);
            },
        }
        let top = seq_max_exec(&self.available);
        self.set_frequency(now_us, top)
    }

    /// Power-saving mode: the powersave governor at the lowest offered
    /// frequency.
    pub fn set_powersave_mode(&mut self, now_us: u64) -> (r: Result<(), SchedError>)
        requires
            old(self).wf(),
        ensures
            final(self).wf(),
            !old(self).initialized ==> r == Result::<(), SchedError>::Err(
                SchedError::NotInitialized,
            ) && *final(self) == *old(self),
            old(self).initialized ==> {
                let mid = CpuFreqControl { governor: Governor::Powersave, ..*old(self) };
                let bottom = spec_seq_min(old(self).available@);
                match mid.spec_set_freq_err(now_us, bottom) {
                    Option::Some(e) => r == Result::<(), SchedError>::Err(e) && *final(self) == mid,
                    Option::None => r is Ok && *final(self) == mid.spec_set_freq_post(
                        now_us,
                        bottom,
                    ),
                }
            },
    {
        match self.set_governor(Governor::Powersave) {
            Ok(_) => {},
            Err(e) => {
                return Err(e);
            },
        }
        let bottom = seq_min_exec(&self.available);
        self.set_frequency(now_us, bottom)
    }

    /// Balanced mode: the ondemand governor at the default frequency.
    pub fn set_balanced_mode(&mut self, now_us: u64) -> (r: Result<(), SchedError>)
        requires
            old(self).wf(),
        ensures
            final(self).wf(),
            !old(self).initialized ==> r == Result::<(), SchedError>::Err(
                SchedError::NotInitialized,
            ) && *final(self) == *old(self),
            old(self).initialized ==> {
                let mid = CpuFreqControl { governor: Governor::Ondemand, ..*old(self) };
                match mid.spec_set_freq_err(now_us, old(self).default_frequency) {
                    Option::Some(e) => r == Result::<(), SchedError>::Err(e) && *final(self) == mid,
                    Option::None => r is Ok && *final(self) == mid.spec_set_freq_post(
                        now_us,
                        old(self).default_frequency,
                    ),
                }
            },
    {
        match self.set_governor(Governor::Ondemand) {
            Ok(_) => {},
            Err(e) => {
                return Err(e);
            },
        }
        self.restore_default_frequency(now_us)
    }
}

/// The minimum of a non-empty sequence is no larger than its maximum.
pub proof fn lemma_seq_min_le_max(s: Seq<u64>)
    requires
        s.len() >= 1,
    ensures
        spec_seq_min(s) <= spec_seq_max(s),
    decreases s.len(),
{
    if s.len() > 1 {
        lemma_seq_min_le_max(s.drop_last());
    }
}

/// The minimum and maximum of a non-empty sequence are elements of it.
pub proof fn lemma_seq_min_max_contained(s: Seq<u64>)
    requires
        s.len() >= 1,
    ensures
        s.contains(spec_seq_min(s)),
        s.contains(spec_seq_max(s)),
    decreases s.len(),
{
    if s.len() == 1 {
        assert(s[0] == spec_seq_min(s));
        assert(s[0] == spec_seq_max(s));
    } else {
        lemma_seq_min_max_contained(s.drop_last());
        if spec_seq_min(s) == s.last() {
            assert(s[s.len() - 1] == spec_seq_min(s));
        } else {
            let k = choose|k: int|
                0 <= k < s.drop_last().len() && #[trigger] s.drop_last()[k] == spec_seq_min(
                    s.drop_last(),
                );
            assert(s[k] == spec_seq_min(s));
        }
        if spec_seq_max(s) == s.last() {
            assert(s[s.len() - 1] == spec_seq_max(s));
        } else {
            let k = choose|k: int|
                0 <= k < s.drop_last().len() && #[trigger] s.drop_last()[k] == spec_seq_max(
                    s.drop_last(),
                );
            assert(s[k] == spec_seq_max(s));
        }
    }
}

/// Whether a vector contains a value.
fn contains_u64(v: &Vec<u64>, x: u64) -> (r: bool)
    ensures
        r == v@.contains(x),
{
    let mut i: usize = 0;
    while i < v.len()
        invariant
            0 <= i <= v@.len(),
            forall|j: int| 0 <= j < i ==> v@[j] != x,
        decreases v@.len() - i,
    {
        if v[i] == x {
            return true;
        }
        i = i + 1;
    }
    false
}

/// The smallest element of a non-empty vector.
fn seq_min_exec(v: &Vec<u64>) -> (r: u64)
    requires
        v@.len() >= 1,
    ensures
        r == spec_seq_min(v@),
{
    let mut best = v[0];
    let mut i: usize = 1;
    proof {
        assert(v@.subrange(0, 1).len() == 1);
        assert(v@.subrange(0, 1)[0] == v@[0]);
    }
    while i < v.len()
        invariant
            1 <= i <= v@.len(),
            best == spec_seq_min(v@.subrange(0, i as int)),
        decreases v@.len() - i,
    {
        proof {
            assert(v@.subrange(0, i + 1).drop_last() =~= v@.subrange(0, i as int));
            assert(v@.subrange(0, i + 1).last() == v@[i as int]);
        }
        if v[i] < best {
            best = v[i];
        }
        i = i + 1;
    }
    proof {
        assert(v@.subrange(0, v@.len() as int) =~= v@);
    }
    best
}

/// The largest element of a non-empty vector.
fn seq_max_exec(v: &Vec<u64>) -> (r: u64)
    requires
        v@.len() >= 1,
    ensures
        r == spec_seq_max(v@),
{
    let mut best = v[0];
    let mut i: usize = 1;
    proof {
        assert(v@.subrange(0, 1).len() == 1);
        assert(v@.subrange(0, 1)[0] == v@[0]);
    }
    while i < v.len()
        invariant
            1 <= i <= v@.len(),
            best == spec_seq_max(v@.subrange(0, i as int)),
        decreases v@.len() - i,
    {
        proof {
            assert(v@.subrange(0, i + 1).drop_last() =~= v@.subrange(0, i as int));
            assert(v@.subrange(0, i + 1).last() == v@[i as int]);
        }
        if v[i] > best {
            best = v[i];
        }
        i = i + 1;
    }
    proof {
        assert(v@.subrange(0, v@.len() as int) =~= v@);
    }
    best
}

/// The element of a non-empty vector closest to `target`; the smaller
/// value wins a tie.
fn closest_exec(v: &Vec<u64>, target: u64) -> (r: u64)
    requires
        v@.len() >= 1,
    ensures
        r == spec_closest(v@, target as int),
{
    let mut best = v[0];
    let mut i: usize = 1;
    proof {
        assert(v@.subrange(0, 1).len() == 1);
        assert(v@.subrange(0, 1)[0] == v@[0]);
    }
    while i < v.len()
        invariant
            1 <= i <= v@.len(),
            best == spec_closest(v@.subrange(0, i as int), target as int),
        decreases v@.len() - i,
    {
        proof {
            assert(v@.subrange(0, i + 1).drop_last() =~= v@.subrange(0, i as int));
            assert(v@.subrange(0, i + 1).last() == v@[i as int]);
        }
        let f = v[i];
        let df = if f >= target {
            f - target
        } else {
            target - f
        };
        let db = if best >= target {
            best - target
        } else {
            target - best
        };
        if df < db || (df == db && f < best) {
            best = f;
        }
        i = i + 1;
    }
    proof {
        assert(v@.subrange(0, v@.len() as int) =~= v@);
    }
    best
}

/// The smallest element of a vector at or above `target`, if any.
fn min_at_least_exec(v: &Vec<u64>, target: u64) -> (r: Option<u64>)
    ensures
        r == spec_min_at_least(v@, target),
{
    let mut best: Option<u64> = None;
    let mut i: usize = 0;
    proof {
        assert(v@.subrange(0, 0) =~= Seq::<u64>::empty());
    }
    while i < v.len()
        invariant
            0 <= i <= v@.len(),
            best == spec_min_at_least(v@.subrange(0, i as int), target),
        decreases v@.len() - i,
    {
        proof {
            assert(v@.subrange(0, i + 1).drop_last() =~= v@.subrange(0, i as int));
            assert(v@.subrange(0, i + 1).last() == v@[i as int]);
        }
        let f = v[i];
        if f >= target {
            best = match best {
                Some(m) => if f < m {
                    Some(f)
                } else {
                    Some(m)
                },
                None => Some(f),
            };
        }
        i = i + 1;
    }
    proof {
        assert(v@.subrange(0, v@.len() as int) =~= v@);
    }
    best
}

} // verus!
