use schedcore::cpuidle::{CpuIdleControl, CpuIdleState};
use schedcore::errors::SchedError;

fn ready() -> CpuIdleControl {
    let mut ctl = CpuIdleControl::new();
    ctl.init().unwrap();
    ctl
}

#[test]
fn uninitialized_idle_operations_are_refused() {
    let mut ctl = CpuIdleControl::new();
    assert!(!ctl.is_supported());
    assert_eq!(ctl.get_current_idle_state(), Err(SchedError::NotInitialized));
    assert_eq!(ctl.set_idle_state(1), Err(SchedError::NotInitialized));
    assert_eq!(ctl.enter(1_000_000), Err(SchedError::NotInitialized));
}

#[test]
fn init_offers_four_states() {
    let ctl = ready();
    assert!(ctl.is_supported());
    assert_eq!(ctl.get_current_idle_state(), Ok(0));
    assert_eq!(ctl.get_available_idle_states(), Ok(vec![0, 1, 2, 3]));
}

#[test]
fn set_idle_state_validates() {
    let mut ctl = ready();
    assert_eq!(ctl.set_idle_state(9), Err(SchedError::InvalidState));
    assert_eq!(ctl.set_idle_state(5), Err(SchedError::UnsupportedState));
    assert_eq!(ctl.set_idle_state(2), Ok(()));
    assert_eq!(ctl.get_current_idle_state(), Ok(2));
    ctl.restore_default_idle_state().unwrap();
    assert_eq!(ctl.get_current_idle_state(), Ok(0));
}

#[test]
fn enter_picks_deepest_fitting_state() {
    // The pick is the deepest state whose exit latency is at most a
    // quarter of the expected idle time.
    let mut ctl = ready();
    // 300 us of idle: state 2 (50 us exit, 200 us needed) fits, state 3
    // (500 us exit) does not.
    assert_eq!(ctl.enter(300_000), Ok(2));
    assert_eq!(ctl.get_current_idle_state(), Ok(2));
    // Very long idle takes the deepest state.
    assert_eq!(ctl.enter(10_000_000), Ok(3));
    // Too short for anything but the polling state.
    assert_eq!(ctl.enter(100), Ok(0));
    // Exactly four times the exit latency of state 1.
    assert_eq!(ctl.enter(4_000), Ok(1));
}

#[test]
fn idle_statistics_account_entries() {
    let mut ctl = ready();
    ctl.enter(10_000_000).unwrap();
    ctl.enter(10_000_000).unwrap();
    ctl.enter(300_000).unwrap();
    let stats = ctl.get_idle_statistics().unwrap();
    assert_eq!(stats.current_state, 2);
    assert_eq!(stats.total_idle_time, 10_000 + 10_000 + 300);
    assert_eq!(stats.state_entry_count[3], (3, 2));
    assert_eq!(stats.state_entry_count[2], (2, 1));
    assert_eq!(stats.state_usage_time[3], (3, 20_000));
    assert_eq!(stats.average_residency[3], (3, 10_000));
    ctl.reset_idle_statistics().unwrap();
    assert_eq!(ctl.get_idle_statistics().unwrap().total_idle_time, 0);
}

#[test]
fn state_names() {
    let ctl = ready();
    assert_eq!(ctl.get_idle_state_name(0).unwrap(), "C0");
    assert_eq!(ctl.get_idle_state_name(7).unwrap(), "C7");
    assert_eq!(ctl.get_idle_state_name(8), Err(SchedError::InvalidState));
}

#[test]
fn custom_table_is_validated() {
    let mut ctl = CpuIdleControl::new();
    // Ids must be strictly increasing.
    let bad = vec![
        CpuIdleState { id: 1, exit_latency_ns: 0 },
        CpuIdleState { id: 1, exit_latency_ns: 10 },
    ];
    assert_eq!(ctl.init_with_table(bad, 1), Err(SchedError::InvalidParameter));
    // Latencies must not decrease with depth.
    let bad = vec![
        CpuIdleState { id: 0, exit_latency_ns: 100 },
        CpuIdleState { id: 1, exit_latency_ns: 10 },
    ];
    assert_eq!(ctl.init_with_table(bad, 0), Err(SchedError::InvalidParameter));
    // The default state must be offered.
    let good = vec![
        CpuIdleState { id: 0, exit_latency_ns: 0 },
        CpuIdleState { id: 3, exit_latency_ns: 900 },
    ];
    assert_eq!(ctl.init_with_table(good.clone(), 5), Err(SchedError::InvalidParameter));
    assert_eq!(ctl.init_with_table(good, 3), Ok(()));
    assert_eq!(ctl.get_current_idle_state(), Ok(3));
}

#[test]
fn idle_shutdown_uninitializes() {
    let mut ctl = ready();
    ctl.set_idle_state(2).unwrap();
    ctl.shutdown().unwrap();
    assert!(!ctl.is_supported());
    // The default state was restored on the way down.
    assert_eq!(ctl.current_state, 0);
    // Shutting an already-uninitialized control down changes nothing.
    let before = ctl.clone();
    ctl.shutdown().unwrap();
    assert_eq!(ctl.current_state, before.current_state);
    assert_eq!(ctl.total_idle_time, before.total_idle_time);
    assert!(!ctl.initialized);
}
