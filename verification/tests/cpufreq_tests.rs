use schedcore::cpufreq::{CpuFreqConfig, CpuFreqControl};
use schedcore::errors::SchedError;
use schedcore::policy::Governor;

fn ready() -> CpuFreqControl {
    let mut ctl = CpuFreqControl::new();
    ctl.init().unwrap();
    ctl
}

#[test]
fn uninitialized_freq_operations_are_refused() {
    let mut ctl = CpuFreqControl::new();
    assert!(!ctl.is_supported());
    assert_eq!(ctl.get_current_frequency(), Err(SchedError::NotInitialized));
    assert_eq!(ctl.set_frequency(0, 2_000_000_000), Err(SchedError::NotInitialized));
    assert_eq!(ctl.set_governor(Governor::Performance), Err(SchedError::NotInitialized));
    assert_eq!(ctl.get_current_governor(), Err(SchedError::NotInitialized));
}

#[test]
fn init_selects_the_default_frequency() {
    let ctl = ready();
    assert!(ctl.is_supported());
    assert_eq!(ctl.get_current_frequency(), Ok(2_000_000_000));
    assert_eq!(ctl.get_current_governor(), Ok(Governor::Ondemand));
    assert_eq!(ctl.get_min_frequency(), Ok(800_000_000));
    assert_eq!(ctl.get_max_frequency(), Ok(3_000_000_000));
}

#[test]
fn init_twice_changes_nothing() {
    let mut ctl = ready();
    ctl.set_frequency(20_000, 2_400_000_000).unwrap();
    ctl.init().unwrap();
    assert_eq!(ctl.get_current_frequency(), Ok(2_400_000_000));
}

#[test]
fn bad_hardware_description_is_refused() {
    let mut ctl = CpuFreqControl::new();
    let config = CpuFreqConfig {
        available_frequencies: vec![100], // far below the safe range
        default_frequency: 100,
        default_governor: Governor::Ondemand,
    };
    assert_eq!(ctl.init_with_config(config), Err(SchedError::InvalidParameter));
    let config = CpuFreqConfig {
        available_frequencies: vec![800_000_000],
        default_frequency: 900_000_000, // not offered
        default_governor: Governor::Ondemand,
    };
    assert_eq!(ctl.init_with_config(config), Err(SchedError::InvalidParameter));
}

#[test]
fn set_frequency_validates_each_request() {
    let mut ctl = ready();
    // Out of the safe operating range.
    assert_eq!(ctl.set_frequency(20_000, 100), Err(SchedError::InvalidFrequency));
    assert_eq!(
        ctl.set_frequency(20_000, 6_000_000_000),
        Err(SchedError::InvalidFrequency)
    );
    // Within range but not offered by the table.
    assert_eq!(
        ctl.set_frequency(20_000, 2_100_000_000),
        Err(SchedError::UnsupportedFrequency)
    );
    // A good request passes.
    assert_eq!(ctl.set_frequency(20_000, 2_400_000_000), Ok(()));
    assert_eq!(ctl.get_current_frequency(), Ok(2_400_000_000));
}

#[test]
fn frequency_changes_are_rate_limited() {
    let mut ctl = ready();
    ctl.set_frequency(0, 2_400_000_000).unwrap();
    // 5 ms later: under the 10 ms minimum interval.
    assert_eq!(ctl.set_frequency(5_000, 800_000_000), Err(SchedError::RateLimited));
    assert_eq!(ctl.get_current_frequency(), Ok(2_400_000_000));
    // 10 ms later the change goes through.
    assert_eq!(ctl.set_frequency(10_000, 800_000_000), Ok(()));
    assert_eq!(ctl.get_current_frequency(), Ok(800_000_000));
}

#[test]
fn critical_temperature_forbids_increases() {
    // Raising the temperature input to 96 degrees makes any request to
    // raise the frequency fail; the frequency must not exceed its prior
    // value.
    let mut ctl = ready();
    ctl.set_frequency(20_000, 2_400_000_000).unwrap();
    ctl.set_thermal_input(96);
    let before = ctl.get_current_frequency().unwrap();
    assert_eq!(
        ctl.set_frequency(40_000, 3_000_000_000),
        Err(SchedError::ThermalThrottled)
    );
    assert_eq!(ctl.get_current_frequency().unwrap(), before);
    // Lowering the frequency is still allowed while hot.
    assert_eq!(ctl.set_frequency(40_000, 800_000_000), Ok(()));
    assert!(ctl.get_current_frequency().unwrap() <= before);
}

#[test]
fn throttle_temperature_limits_increases_to_a_tenth() {
    let mut ctl = ready();
    ctl.set_frequency(20_000, 2_400_000_000).unwrap();
    ctl.set_thermal_input(90);
    // 3.0 GHz is more than 2.4 GHz + a tenth: refused.
    assert_eq!(
        ctl.set_frequency(40_000, 3_000_000_000),
        Err(SchedError::ThermalThrottled)
    );
    let info = ctl.get_thermal_info().unwrap();
    assert!(info.throttled);
    assert_eq!(info.temperature, 90);
}

#[test]
fn intelligent_scaling_tracks_load() {
    let mut ctl = ready();
    // High load scales to the maximum.
    assert_eq!(ctl.scale_frequency_intelligent(20_000, 90, 5_000), Ok(3_000_000_000));
    // Low load scales to the minimum.
    assert_eq!(ctl.scale_frequency_intelligent(40_000, 10, 5_000), Ok(800_000_000));
    // Fifty percent load: the point between 0.8 and 3.0 GHz is 1.9 GHz,
    // whose closest offered frequency is 2.0 GHz.
    assert_eq!(ctl.scale_frequency_intelligent(60_000, 50, 5_000), Ok(2_000_000_000));
    // A load over one hundred percent is a caller error.
    assert_eq!(
        ctl.scale_frequency_intelligent(80_000, 101, 5_000),
        Err(SchedError::InvalidParameter)
    );
}

#[test]
fn intelligent_scaling_prefers_higher_frequency_for_low_latency() {
    let mut ctl = ready();
    // Forty percent load targets 0.8 + 2.2 * 0.4 = 1.68 GHz, closest is
    // 1.6 GHz; a sub-millisecond latency goal rounds up to the smallest
    // offered frequency at or above the target, which is 1.6 GHz itself.
    assert_eq!(ctl.scale_frequency_intelligent(20_000, 40, 500), Ok(1_600_000_000));
}

#[test]
fn stats_and_reset() {
    let mut ctl = ready();
    ctl.set_frequency(20_000, 2_400_000_000).unwrap();
    let stats = ctl.get_frequency_stats().unwrap();
    assert_eq!(stats.current_frequency, 2_400_000_000);
    assert_eq!(stats.min_frequency, 800_000_000);
    assert_eq!(stats.max_frequency, 3_000_000_000);
    assert_eq!(stats.transition_count, 1);
    assert_eq!(stats.temperature, Some(25));
    assert!(!stats.thermal_throttled);
    ctl.reset_frequency_stats().unwrap();
    assert_eq!(ctl.get_frequency_stats().unwrap().transition_count, 0);
}

#[test]
fn governor_modes() {
    let mut ctl = ready();
    ctl.set_performance_mode(20_000).unwrap();
    assert_eq!(ctl.get_current_governor(), Ok(Governor::Performance));
    assert_eq!(ctl.get_current_frequency(), Ok(3_000_000_000));
    ctl.set_powersave_mode(40_000).unwrap();
    assert_eq!(ctl.get_current_governor(), Ok(Governor::Powersave));
    assert_eq!(ctl.get_current_frequency(), Ok(800_000_000));
    ctl.set_balanced_mode(60_000).unwrap();
    assert_eq!(ctl.get_current_governor(), Ok(Governor::Ondemand));
    assert_eq!(ctl.get_current_frequency(), Ok(2_000_000_000));
    assert_eq!(Governor::Performance.as_str(), "performance");
    assert_eq!(Governor::Userspace.as_str(), "userspace");
}

#[test]
fn shutdown_leaves_conservative_and_uninitialized() {
    let mut ctl = ready();
    ctl.shutdown(20_000).unwrap();
    assert!(!ctl.is_supported());
    assert_eq!(ctl.get_current_frequency(), Err(SchedError::NotInitialized));
    // Shutting an already-uninitialized control down changes nothing.
    let before = ctl.clone();
    ctl.shutdown(40_000).unwrap();
    assert_eq!(ctl.current, before.current);
    assert_eq!(ctl.governor, before.governor);
    assert_eq!(ctl.transition_count, before.transition_count);
    assert!(!ctl.initialized);
}

#[test]
fn available_frequencies_are_reported() {
    let ctl = ready();
    let freqs = ctl.get_available_frequencies().unwrap();
    assert_eq!(freqs.len(), 6);
    assert!(freqs.contains(&800_000_000));
    assert!(freqs.contains(&3_000_000_000));
}
