use schedcore::pelt::{avg_step, cpu_load_sum, decay, decay_factor_q32};
use schedcore::task::{vruntime_charge, weight_of_nice, DlParams, Task, TaskState};
use schedcore::policy::SchedPolicy;

#[test]
fn weight_table_anchors() {
    // Nice zero maps to 1024; each step is close to a ratio of one and a
    // quarter; the ends of the table are the classic values.
    assert_eq!(weight_of_nice(0), 1024);
    assert_eq!(weight_of_nice(-20), 88761);
    assert_eq!(weight_of_nice(19), 15);
    assert_eq!(weight_of_nice(-1), 1277);
    assert_eq!(weight_of_nice(1), 820);
    for nice in -20..19 {
        let w = weight_of_nice(nice) as u128;
        let next = weight_of_nice(nice + 1) as u128;
        // w / next is near 1.25: within 4 percent either way.
        assert!(w * 100 >= next * 120, "step at nice {nice}");
        assert!(w * 100 <= next * 130, "step at nice {nice}");
    }
}

#[test]
fn vruntime_charge_is_weighted() {
    // Charging is delta * 1024 / weight.
    assert_eq!(vruntime_charge(1_000_000, 1024), 1_000_000);
    assert_eq!(vruntime_charge(1_000_000, 2048), 500_000);
    assert_eq!(vruntime_charge(1_000_000, 512), 2_000_000);
    assert_eq!(vruntime_charge(0, 15), 0);
    // Saturation instead of overflow.
    assert_eq!(vruntime_charge(u64::MAX, 1), u64::MAX);
}

#[test]
fn decay_halves_every_half_life() {
    // The half-life is 32 tracking periods.
    assert_eq!(decay_factor_q32(0), 1u64 << 32);
    assert_eq!(decay(1024, 0), 1024);
    assert_eq!(decay(1024, 32), 512);
    assert_eq!(decay(1024, 64), 256);
    assert_eq!(decay(512, 32), 256);
    // Far past sixty-four half-lives everything is gone.
    assert_eq!(decay(1024, 4000), 0);
    // One period decays by the first table factor: 1024 * 4202935003 >> 32.
    assert_eq!(decay(1024, 1), 1002);
}

#[test]
fn averages_converge_to_the_rails() {
    // An active entity climbs toward 1024 and never drops; an inactive
    // one decays toward zero and never rises.
    let mut avg: u64 = 0;
    for _ in 0..20 {
        let next = avg_step(avg, 32, true);
        assert!(next >= avg);
        assert!(next <= 1024);
        avg = next;
    }
    assert!(avg > 1000);
    for _ in 0..20 {
        let next = avg_step(avg, 32, false);
        assert!(next <= avg);
        avg = next;
    }
    assert!(avg < 24);
    // One half-life active from zero reaches the midpoint.
    assert_eq!(avg_step(0, 32, true), 512);
}

#[test]
fn dl_utilization_is_permille() {
    let p = DlParams { runtime: 10_000_000, deadline: 100_000_000, period: 100_000_000 };
    assert!(p.is_valid());
    assert_eq!(p.util_permille(), 100);
    let q = DlParams { runtime: 1, deadline: 2, period: 3 };
    assert_eq!(q.util_permille(), 333);
    let bad = DlParams { runtime: 0, deadline: 2, period: 3 };
    assert!(!bad.is_valid());
}

#[test]
fn load_sum_counts_only_attached_tasks() {
    let dl = DlParams { runtime: 1, deadline: 1, period: 1 };
    let mut a = Task::new(0, SchedPolicy::Normal, 0, 0, dl, 0b11, false, 0, 0);
    let mut b = Task::new(1, SchedPolicy::Normal, 0, 0, dl, 0b11, false, 0, 0);
    let mut c = Task::new(2, SchedPolicy::Normal, 0, 0, dl, 0b11, false, 1, 0);
    a.state = TaskState::Runnable;
    a.load_avg = 700;
    b.state = TaskState::Blocked;  // not attached
    b.load_avg = 500;
    c.state = TaskState::Running;  // attached to CPU 1
    c.load_avg = 300;
    let tasks = vec![a, b, c];
    assert_eq!(cpu_load_sum(&tasks, 0), 700);
    assert_eq!(cpu_load_sum(&tasks, 1), 300);
    assert_eq!(cpu_load_sum(&tasks, 2), 0);
}
