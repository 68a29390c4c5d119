use schedcore::policy::SchedulingHint;
use schedcore::psi::{PSIConfig, PSIScheduler, PSISeverity, PSIThresholds};

#[test]
fn test_psi_scheduler_creation() {
    let psi = PSIScheduler::new();
    assert_eq!(psi.get_current_severity(), PSISeverity::Clear);
    assert!(!psi.is_under_pressure());
}

#[test]
fn test_severity_calculation() {
    let psi = PSIScheduler::new();
    assert_eq!(psi.calculate_severity(5), PSISeverity::Clear);
    assert_eq!(psi.calculate_severity(15), PSISeverity::Low);
    assert_eq!(psi.calculate_severity(45), PSISeverity::Medium);
    assert_eq!(psi.calculate_severity(75), PSISeverity::High);
    assert_eq!(psi.calculate_severity(95), PSISeverity::Critical);
}

#[test]
fn test_scheduling_hints() {
    let psi = PSIScheduler::new();
    assert_eq!(psi.get_scheduling_hint(), SchedulingHint::Normal);
}

#[test]
fn severity_thresholds_are_inclusive() {
    let psi = PSIScheduler::new();
    assert_eq!(psi.calculate_severity(10), PSISeverity::Low);
    assert_eq!(psi.calculate_severity(30), PSISeverity::Medium);
    assert_eq!(psi.calculate_severity(60), PSISeverity::High);
    assert_eq!(psi.calculate_severity(90), PSISeverity::Critical);
    assert_eq!(psi.calculate_severity(0), PSISeverity::Clear);
    assert_eq!(psi.calculate_severity(100), PSISeverity::Critical);
}

#[test]
fn first_sample_is_accepted_and_recorded() {
    let mut psi = PSIScheduler::new();
    psi.update_metrics(0, 45, 10, 0);
    let m = psi.get_metrics();
    assert_eq!(m.cpu_pressure, 45);
    assert_eq!(m.memory_pressure, 10);
    assert_eq!(m.io_pressure, 0);
    // One sample of 45 percent averages to 45: medium severity.
    assert_eq!(psi.get_current_severity(), PSISeverity::Medium);
    assert!(psi.is_under_pressure());
    assert!(!psi.is_critical_pressure());
}

#[test]
fn updates_inside_the_interval_are_dropped() {
    let mut psi = PSIScheduler::new();
    psi.update_metrics(0, 45, 0, 0);
    // Only 50 ms later: below the 100 ms interval, so nothing changes.
    psi.update_metrics(50_000, 95, 0, 0);
    assert_eq!(psi.get_metrics().cpu_pressure, 45);
    // 100 ms later the sample is accepted.
    psi.update_metrics(100_000, 95, 0, 0);
    assert_eq!(psi.get_metrics().cpu_pressure, 95);
}

#[test]
fn pressure_events_count_by_severity() {
    let mut psi = PSIScheduler::new();
    let mut now = 0u64;
    // One medium sample, then enough high samples to drag the window up.
    psi.update_metrics(now, 45, 0, 0);
    let events = psi.get_pressure_events();
    assert_eq!(events.medium, 1);
    assert_eq!(events.high, 0);
    for _ in 0..120 {
        now += 100_000;
        psi.update_metrics(now, 100, 0, 0);
    }
    let events = psi.get_pressure_events();
    assert!(events.high + events.critical > 0);
}

#[test]
fn window_average_reaches_sustained_pressure() {
    // Driving 65 percent CPU pressure for ten seconds must reach the
    // high bucket, whose hint is to limit new tasks.
    let mut psi = PSIScheduler::new();
    let mut now = 0u64;
    for _ in 0..100 {
        psi.update_metrics(now, 65, 0, 0);
        now += 100_000;
    }
    assert_eq!(psi.get_current_severity(), PSISeverity::High);
    assert_eq!(psi.get_scheduling_hint(), SchedulingHint::LimitNewTasks);
}

#[test]
fn average_pressure_over_recent_entries() {
    let mut psi = PSIScheduler::new();
    psi.update_metrics(0, 10, 20, 30);
    psi.update_metrics(100_000, 30, 40, 50);
    let (cpu, mem, io) = psi.get_average_pressure(2);
    assert_eq!(cpu, 20);
    assert_eq!(mem, 30);
    assert_eq!(io, 40);
    let (cpu, _, _) = psi.get_average_pressure(1);
    assert_eq!(cpu, 30);
    let empty = PSIScheduler::new();
    assert_eq!(empty.get_average_pressure(10), (0, 0, 0));
}

#[test]
fn history_ring_keeps_its_size() {
    let config = PSIConfig {
        enabled: true,
        update_interval_us: 100_000,
        thresholds: PSIThresholds { low: 10, medium: 30, high: 60, critical: 90 },
        history_size: 3,
    };
    let mut psi = PSIScheduler::with_config(config);
    let mut now = 0u64;
    for k in 0..10u64 {
        psi.update_metrics(now, k * 10, 0, 0);
        now += 100_000;
    }
    // Only the last three samples remain: 70, 80, 90.
    let (cpu, _, _) = psi.get_average_pressure(100);
    assert_eq!(cpu, 80);
}

#[test]
fn reset_clears_everything() {
    let mut psi = PSIScheduler::new();
    psi.update_metrics(0, 95, 0, 0);
    assert!(psi.is_critical_pressure());
    psi.reset(200_000);
    assert_eq!(psi.get_current_severity(), PSISeverity::Clear);
    assert_eq!(psi.get_pressure_events().critical, 0);
    assert_eq!(psi.get_metrics().cpu_pressure, 0);
}

#[test]
fn metrics_max_threshold_and_age() {
    let mut psi = PSIScheduler::new();
    psi.update_metrics(0, 20, 55, 40);
    let m = psi.get_metrics();
    assert_eq!(m.get_max_pressure(), 55);
    assert!(m.exceeds_threshold(54));
    assert!(!m.exceeds_threshold(55));
    assert_eq!(m.get_age(250), 250);
}

#[test]
fn config_update_and_enable_toggle() {
    let mut psi = PSIScheduler::new();
    assert_eq!(psi.get_config().history_size, 60);
    psi.set_enabled(false);
    assert!(!psi.get_config().enabled);
    let smaller = PSIConfig {
        enabled: true,
        update_interval_us: 50_000,
        thresholds: PSIThresholds { low: 10, medium: 30, high: 60, critical: 90 },
        history_size: 2,
    };
    psi.update_config(smaller);
    assert_eq!(psi.get_config().history_size, 2);
    assert_eq!(psi.get_config().update_interval_us, 50_000);
}
