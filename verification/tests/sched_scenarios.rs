use schedcore::cpuidle::CpuIdleControl;
use schedcore::errors::SchedError;
use schedcore::policy::{SchedPolicy, ScheduleResult};
use schedcore::sched::CoreScheduler;
use schedcore::task::{DlParams, TaskState};

fn plain_dl() -> DlParams {
    DlParams { runtime: 1, deadline: 1, period: 1 }
}

fn started(ncpus: usize) -> CoreScheduler {
    let mut s = CoreScheduler::new();
    s.init(ncpus).unwrap();
    s
}

const TICK_NS: u64 = 1_000_000;

#[test]
fn weight_ratio_governs_cpu_shares() {
    // A task at nice -20 versus one at nice +19 receives CPU time in the
    // ratio of their weights (88761 : 15), within five percent, over a
    // long busy stretch of one CPU.
    let mut s = started(1);
    let heavy = s.register_task(SchedPolicy::Normal, -20, 0, plain_dl(), 1, false).unwrap();
    let light = s.register_task(SchedPolicy::Normal, 19, 0, plain_dl(), 1, false).unwrap();
    s.wake_up_task(heavy).unwrap();
    s.wake_up_task(light).unwrap();
    let mut now = 0u64;
    let mut ran = [0u64; 2];
    for _ in 0..200_000 {
        now += TICK_NS;
        s.tick(0, now).unwrap();
        s.schedule(0).unwrap();
        if let Some(t) = s.get_current_task(0) {
            ran[t] += 1;
        }
    }
    let (h, l) = (ran[heavy] as u128, ran[light] as u128);
    assert!(l > 0 && h > 0);
    // 0.95 * (88761 / 15) <= h / l <= 1.05 * (88761 / 15), in integers.
    assert!(h * 15 * 100 >= l * 88761 * 95, "heavy share too small: {h} vs {l}");
    assert!(h * 15 * 100 <= l * 88761 * 105, "heavy share too large: {h} vs {l}");
}

#[test]
fn deadline_admission_boundary() {
    // With a 95 percent ceiling, a (C = 10 ms, T = 100 ms) task is
    // admitted while existing utilization is 0.85, and refused at 0.86.
    let mut s = started(1);
    let existing = DlParams { runtime: 85_000_000, deadline: 100_000_000, period: 100_000_000 };
    s.register_task(SchedPolicy::Deadline, 0, 0, existing, 1, false).unwrap();
    let new_task = DlParams { runtime: 10_000_000, deadline: 100_000_000, period: 100_000_000 };
    let admitted = s.register_task(SchedPolicy::Deadline, 0, 0, new_task, 1, false);
    assert!(admitted.is_ok());

    let mut s = started(1);
    let existing = DlParams { runtime: 86_000_000, deadline: 100_000_000, period: 100_000_000 };
    s.register_task(SchedPolicy::Deadline, 0, 0, existing, 1, false).unwrap();
    let refused = s.register_task(SchedPolicy::Deadline, 0, 0, new_task, 1, false);
    assert_eq!(refused, Err(SchedError::AdmissionDenied));
}

#[test]
fn round_robin_peers_alternate() {
    // Two equal-priority round-robin tasks with a 10 ms slice alternate
    // within one tick of jitter.
    let mut s = started(1);
    let a = s.register_task(SchedPolicy::RoundRobin, 0, 50, plain_dl(), 1, false).unwrap();
    let b = s.register_task(SchedPolicy::RoundRobin, 0, 50, plain_dl(), 1, false).unwrap();
    s.wake_up_task(a).unwrap();
    s.wake_up_task(b).unwrap();
    let mut now = 0u64;
    let mut current = usize::MAX;
    let mut run_len = 0u64;
    let mut stretches: Vec<u64> = Vec::new();
    for _ in 0..200 {
        now += TICK_NS;
        s.tick(0, now).unwrap();
        s.schedule(0).unwrap();
        let t = s.get_current_task(0).unwrap();
        if t == current {
            run_len += 1;
        } else {
            if current != usize::MAX {
                stretches.push(run_len);
            }
            current = t;
            run_len = 1;
        }
    }
    // Drop the first partial stretch; the rest are full slices.
    assert!(stretches.len() >= 10);
    for len in &stretches[1..] {
        assert!(
            (9..=11).contains(len),
            "round-robin stretch of {len} ticks breaks the 10 +/- 1 pattern"
        );
    }
}

#[test]
fn equal_tasks_spread_over_the_machine() {
    // Eight busy normal tasks of equal weight on a four-CPU machine: the
    // balancer spreads them out, the per-CPU load deviation ends small,
    // and every task receives close to half a CPU.
    let mut s = started(4);
    let mut ids = Vec::new();
    for _ in 0..8 {
        let t = s.register_task(SchedPolicy::Normal, 0, 0, plain_dl(), 0b1111, false).unwrap();
        s.wake_up_task(t).unwrap();
        ids.push(t);
    }
    let mut now = 0u64;
    let mut ran = [0u64; 8];
    for _ in 0..2000 {
        now += TICK_NS;
        for c in 0..4 {
            s.tick(c, now).unwrap();
            s.schedule(c).unwrap();
            if let Some(t) = s.get_current_task(c) {
                ran[t] += 1;
            }
        }
        s.load_balance().unwrap();
    }
    // Each task gets 2 s * 4 / 8 = 1 s of CPU, within five percent.
    for (t, ticks) in ran.iter().enumerate() {
        assert!(
            (950..=1050).contains(ticks),
            "task {t} ran {ticks} ms of the expected 1000 ms"
        );
    }
    // Per-CPU load standard deviation at most ten percent of the mean.
    let loads: Vec<u64> = (0..4).map(|c| s.cpu_load(c)).collect();
    let mean: u64 = loads.iter().sum::<u64>() / 4;
    assert!(mean > 0);
    let var: u64 = loads
        .iter()
        .map(|&l| {
            let d = if l > mean { l - mean } else { mean - l };
            d * d
        })
        .sum::<u64>()
        / 4;
    // stddev <= mean / 10 is variance * 100 <= mean^2.
    assert!(var * 100 <= mean * mean, "loads {loads:?} deviate too much from {mean}");
}

#[test]
fn rt_task_gets_its_bandwidth_and_no_more() {
    // One FIFO task at priority 50 pinned to CPU 0, plus two normal tasks
    // there: the real-time task receives its full 95 percent bandwidth of
    // the one-second window and is throttled beyond it.
    let mut s = started(1);
    let rt = s.register_task(SchedPolicy::Fifo, 0, 50, plain_dl(), 1, true).unwrap();
    let n1 = s.register_task(SchedPolicy::Normal, 0, 0, plain_dl(), 1, false).unwrap();
    let n2 = s.register_task(SchedPolicy::Normal, 0, 0, plain_dl(), 1, false).unwrap();
    for t in [rt, n1, n2] {
        s.wake_up_task(t).unwrap();
    }
    let mut now = 0u64;
    let mut rt_ticks = 0u64;
    let mut fair_ticks = 0u64;
    for _ in 0..1000 {
        now += TICK_NS;
        s.tick(0, now).unwrap();
        s.schedule(0).unwrap();
        match s.get_current_task(0) {
            Some(t) if t == rt => rt_ticks += 1,
            Some(_) => fair_ticks += 1,
            None => {},
        }
    }
    assert!(
        (940..=960).contains(&rt_ticks),
        "real-time task ran {rt_ticks} of 1000 ticks instead of about 950"
    );
    assert!(fair_ticks >= 40, "fair tasks were starved: {fair_ticks} ticks");
    assert!(s.get_stats().rt_throttled >= 1);
}

#[test]
fn admitted_deadline_tasks_miss_nothing() {
    // Two deadline tasks of joint utilization 0.4 on CPU 1, with a
    // concurrent normal task there, complete every job within budget:
    // zero deadline misses over one second.
    let mut s = started(2);
    let a = s
        .register_task(
            SchedPolicy::Deadline,
            0,
            0,
            DlParams { runtime: 2_000_000, deadline: 10_000_000, period: 10_000_000 },
            0b10,
            false,
        )
        .unwrap();
    let b = s
        .register_task(
            SchedPolicy::Deadline,
            0,
            0,
            DlParams { runtime: 4_000_000, deadline: 20_000_000, period: 20_000_000 },
            0b10,
            false,
        )
        .unwrap();
    let n = s.register_task(SchedPolicy::Normal, 0, 0, plain_dl(), 0b10, false).unwrap();
    s.wake_up_task(n).unwrap();
    let mut now = 0u64;
    let mut ran_a = 0u64;
    let mut ran_b = 0u64;
    for step in 0u64..1000 {
        // Release the jobs at their periods.
        if step % 10 == 0 {
            s.wake_up_task(a).unwrap();
            ran_a = 0;
        }
        if step % 20 == 0 {
            s.wake_up_task(b).unwrap();
            ran_b = 0;
        }
        now += TICK_NS;
        s.tick(1, now).unwrap();
        s.schedule(1).unwrap();
        // A job blocks when it has done its work for the period, before
        // its budget runs dry.
        match s.get_current_task(1) {
            Some(t) if t == a => {
                ran_a += 1;
                if ran_a >= 2 {
                    s.block_current(1).unwrap();
                }
            },
            Some(t) if t == b => {
                ran_b += 1;
                if ran_b >= 4 {
                    s.block_current(1).unwrap();
                }
            },
            _ => {},
        }
    }
    assert_eq!(s.get_stats().deadline_misses, 0);
    // The normal task still made progress between jobs.
    assert!(s.get_task(n).unwrap().sum_exec > 0);
}

#[test]
fn affinity_squeeze_converges_to_one_cpu() {
    // With normal tasks on every CPU, setting every task's affinity to
    // CPU 0 moves them all there; the other CPUs go idle and receive
    // idle-state hints.
    let mut s = started(4);
    let mut ids = Vec::new();
    for _ in 0..4 {
        let t = s.register_task(SchedPolicy::Normal, 0, 0, plain_dl(), 0b1111, false).unwrap();
        s.wake_up_task(t).unwrap();
        ids.push(t);
    }
    let mut now = 0u64;
    // Let the balancer distribute the tasks first.
    for _ in 0..200 {
        now += TICK_NS;
        for c in 0..4 {
            s.tick(c, now).unwrap();
            s.schedule(c).unwrap();
        }
        s.load_balance().unwrap();
    }
    for &t in &ids {
        s.set_affinity(t, 0b0001).unwrap();
    }
    let mut idle = CpuIdleControl::new();
    idle.init().unwrap();
    for _ in 0..100 {
        now += TICK_NS;
        for c in 0..4 {
            s.tick(c, now).unwrap();
            let decision = s.schedule(c).unwrap();
            if c != 0 {
                assert_eq!(decision, ScheduleResult::GoIdle);
                idle.enter(TICK_NS).unwrap();
            }
        }
    }
    for &t in &ids {
        assert_eq!(s.get_task(t).unwrap().cpu, 0);
    }
    for c in 1..4 {
        assert_eq!(s.get_current_task(c), None);
        assert_eq!(s.cpu_load(c), 0);
    }
    assert!(idle.get_idle_statistics().unwrap().total_idle_time > 0);
}

#[test]
fn pressure_limits_new_background_tasks() {
    // Sustained 65 percent CPU pressure for ten seconds turns the hint to
    // limiting new tasks: background and batch admissions are refused
    // while real-time and deadline tasks are still admitted.
    let mut s = started(1);
    let mut now = 0u64;
    for _ in 0..100 {
        now += 100_000_000;
        s.tick(0, now).unwrap();
        s.update_pressure(65, 0, 0).unwrap();
    }
    assert_eq!(
        s.get_scheduling_hint(),
        schedcore::policy::SchedulingHint::LimitNewTasks
    );
    assert_eq!(
        s.register_task(SchedPolicy::Background, 0, 0, plain_dl(), 1, false),
        Err(SchedError::AdmissionDenied)
    );
    assert_eq!(
        s.register_task(SchedPolicy::Batch, 0, 0, plain_dl(), 1, false),
        Err(SchedError::AdmissionDenied)
    );
    assert!(s.register_task(SchedPolicy::Fifo, 0, 10, plain_dl(), 1, false).is_ok());
    let dl = DlParams { runtime: 1_000_000, deadline: 10_000_000, period: 10_000_000 };
    assert!(s.register_task(SchedPolicy::Deadline, 0, 0, dl, 1, false).is_ok());
    assert!(s.register_task(SchedPolicy::Normal, 0, 0, plain_dl(), 1, false).is_ok());
}

#[test]
fn wake_preemption_flags_a_reschedule() {
    // A higher-class wake-up flags the CPU for rescheduling; observed at
    // the next preemption point, the real-time task takes the CPU.
    let mut s = started(1);
    let fair = s.register_task(SchedPolicy::Normal, 0, 0, plain_dl(), 1, false).unwrap();
    s.wake_up_task(fair).unwrap();
    s.schedule(0).unwrap();
    assert_eq!(s.get_current_task(0), Some(fair));
    let rt = s.register_task(SchedPolicy::Fifo, 0, 50, plain_dl(), 1, false).unwrap();
    s.wake_up_task(rt).unwrap();
    assert_eq!(s.schedule(0).unwrap(), ScheduleResult::SwitchTo(rt));
    assert_eq!(s.get_task(fair).unwrap().state, TaskState::Runnable);
    assert!(s.get_stats().preemptions >= 1);
}
