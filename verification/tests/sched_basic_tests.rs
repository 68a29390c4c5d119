use schedcore::config::SchedulerConfig;
use schedcore::errors::SchedError;
use schedcore::policy::{SchedPolicy, ScheduleResult, SchedulerState};
use schedcore::sched::CoreScheduler;
use schedcore::task::{DlParams, TaskState};

fn plain_dl() -> DlParams {
    DlParams { runtime: 1, deadline: 1, period: 1 }
}

fn started(ncpus: usize) -> CoreScheduler {
    let mut s = CoreScheduler::new();
    s.init(ncpus).unwrap();
    s
}

#[test]
fn lifecycle_and_states() {
    let mut s = CoreScheduler::new();
    assert!(!s.is_running());
    assert_eq!(s.get_state(), SchedulerState::Uninitialized);
    assert_eq!(s.init(0), Err(SchedError::InvalidParameter));
    assert_eq!(s.init(65), Err(SchedError::InvalidParameter));
    assert_eq!(s.tick_counter, 0);
    assert_eq!(s.next_seq, 0);
    assert_eq!(s.last_balance_tick, 0);
    s.init(4).unwrap();
    assert!(s.is_running());
    assert_eq!(s.ncpus(), 4);
    assert_eq!(s.init(4), Err(SchedError::AlreadyInitialized));
    assert!(s.get_state().can_schedule());
    assert!(s.get_state().is_stable());
    assert!(!SchedulerState::Stopping.is_stable());
    assert!(!SchedulerState::Suspended.can_schedule());
}

#[test]
fn policy_metadata() {
    assert_eq!(SchedPolicy::Fifo.priority_class(), 100);
    assert_eq!(SchedPolicy::RoundRobin.priority_class(), 100);
    assert_eq!(SchedPolicy::Deadline.priority_class(), 90);
    assert_eq!(SchedPolicy::Interactive.priority_class(), 80);
    assert_eq!(SchedPolicy::Normal.priority_class(), 50);
    assert_eq!(SchedPolicy::Batch.priority_class(), 30);
    assert_eq!(SchedPolicy::Background.priority_class(), 10);
    assert_eq!(SchedPolicy::Idle.priority_class(), 0);
    assert!(SchedPolicy::Fifo.is_realtime());
    assert!(SchedPolicy::Deadline.is_realtime());
    assert!(!SchedPolicy::Normal.is_realtime());
    assert_eq!(SchedPolicy::Normal.scheduler_name(), "CFS");
    assert_eq!(SchedPolicy::RoundRobin.scheduler_name(), "RT");
    assert_eq!(SchedPolicy::Deadline.scheduler_name(), "DL");
    assert_eq!(SchedPolicy::Background.scheduler_name(), "BATCH");
    assert_eq!(SchedPolicy::Idle.scheduler_name(), "IDLE");
    assert_eq!(SchedError::AdmissionDenied.name(), "admission_denied");
}

#[test]
fn register_validates_parameters() {
    let mut s = started(2);
    assert_eq!(
        s.register_task(SchedPolicy::Normal, 25, 0, plain_dl(), 1, false),
        Err(SchedError::InvalidParameter)
    );
    assert_eq!(
        s.register_task(SchedPolicy::Fifo, 0, 120, plain_dl(), 1, false),
        Err(SchedError::InvalidParameter)
    );
    // An affinity mask that allows no CPU of the machine.
    assert_eq!(
        s.register_task(SchedPolicy::Normal, 0, 0, plain_dl(), 0b100, false),
        Err(SchedError::InvalidParameter)
    );
    // Bad deadline parameters: C > D.
    let bad = DlParams { runtime: 10, deadline: 5, period: 20 };
    assert_eq!(
        s.register_task(SchedPolicy::Deadline, 0, 0, bad, 1, false),
        Err(SchedError::InvalidParameter)
    );
    let t = s.register_task(SchedPolicy::Normal, 0, 0, plain_dl(), 0b11, false).unwrap();
    assert_eq!(t, 0);
    assert_eq!(s.get_task(t).unwrap().state, TaskState::Created);
    assert_eq!(s.get_stats().tasks_created, 1);
}

#[test]
fn wake_up_is_idempotent() {
    // Two wake-ups of the same task are one: a task is enqueued at most
    // once, and the second wake changes nothing observable.
    let mut s = started(2);
    let t = s.register_task(SchedPolicy::Normal, 0, 0, plain_dl(), 0b11, false).unwrap();
    s.wake_up_task(t).unwrap();
    let after_one = s.get_task(t).unwrap();
    let stats_one = s.get_stats();
    assert_eq!(after_one.state, TaskState::Runnable);
    s.wake_up_task(t).unwrap();
    assert_eq!(s.get_task(t).unwrap(), after_one);
    assert_eq!(s.get_stats(), stats_one);
    assert_eq!(s.wake_up_task(99), Err(SchedError::TaskNotFound));
}

#[test]
fn schedule_picks_and_switches() {
    let mut s = started(1);
    assert_eq!(s.schedule(0).unwrap(), ScheduleResult::GoIdle);
    let t = s.register_task(SchedPolicy::Normal, 0, 0, plain_dl(), 1, false).unwrap();
    s.wake_up_task(t).unwrap();
    assert_eq!(s.schedule(0).unwrap(), ScheduleResult::SwitchTo(t));
    assert_eq!(s.get_current_task(0), Some(t));
    assert_eq!(s.get_task(t).unwrap().state, TaskState::Running);
    // Nothing better to run: the task keeps the CPU.
    assert_eq!(s.schedule(0).unwrap(), ScheduleResult::KeepCurrent);
    assert_eq!(s.schedule(7), Err(SchedError::InvalidParameter));
}

#[test]
fn class_order_stop_deadline_rt_fair_idle() {
    let mut s = started(1);
    let fair = s.register_task(SchedPolicy::Normal, 0, 0, plain_dl(), 1, false).unwrap();
    let idle = s.register_task(SchedPolicy::Idle, 0, 0, plain_dl(), 1, false).unwrap();
    let rt = s.register_task(SchedPolicy::Fifo, 0, 50, plain_dl(), 1, false).unwrap();
    let dl = s
        .register_task(
            SchedPolicy::Deadline,
            0,
            0,
            DlParams { runtime: 1_000_000, deadline: 10_000_000, period: 10_000_000 },
            1,
            false,
        )
        .unwrap();
    let stop = s.register_task(SchedPolicy::Stop, 0, 0, plain_dl(), 1, false).unwrap();
    for t in [fair, idle, rt, dl, stop] {
        s.wake_up_task(t).unwrap();
    }
    // Stop outranks deadline, which outranks real-time, which outranks
    // fair, which outranks idle.
    assert_eq!(s.schedule(0).unwrap(), ScheduleResult::SwitchTo(stop));
    s.block_current(0).unwrap();
    assert_eq!(s.schedule(0).unwrap(), ScheduleResult::SwitchTo(dl));
    s.block_current(0).unwrap();
    assert_eq!(s.schedule(0).unwrap(), ScheduleResult::SwitchTo(rt));
    s.block_current(0).unwrap();
    assert_eq!(s.schedule(0).unwrap(), ScheduleResult::SwitchTo(fair));
    s.block_current(0).unwrap();
    assert_eq!(s.schedule(0).unwrap(), ScheduleResult::SwitchTo(idle));
}

#[test]
fn migration_is_validated_and_respects_affinity() {
    let mut s = started(2);
    let pinned = s.register_task(SchedPolicy::Normal, 0, 0, plain_dl(), 0b11, true).unwrap();
    let narrow = s.register_task(SchedPolicy::Normal, 0, 0, plain_dl(), 0b01, false).unwrap();
    let free = s.register_task(SchedPolicy::Normal, 0, 0, plain_dl(), 0b11, false).unwrap();
    assert_eq!(s.migrate_task(42, 1), Err(SchedError::TaskNotFound));
    assert_eq!(s.migrate_task(free, 9), Err(SchedError::InvalidParameter));
    assert_eq!(s.migrate_task(pinned, 1), Err(SchedError::PinnedTask));
    // No migration violates affinity.
    assert_eq!(s.migrate_task(narrow, 1), Err(SchedError::AffinityViolation));
    assert_eq!(s.get_task(narrow).unwrap().cpu, 0);
    let before = s.get_stats().migrations;
    s.migrate_task(free, 1).unwrap();
    let moved = s.get_task(free).unwrap();
    assert_eq!(moved.cpu, 1);
    assert!(moved.affinity & (1 << moved.cpu) != 0);
    assert_eq!(s.get_stats().migrations, before + 1);
    // A running task does not migrate directly.
    s.wake_up_task(narrow).unwrap();
    s.schedule(0).unwrap();
    assert_eq!(s.get_current_task(0), Some(narrow));
    assert_eq!(s.migrate_task(narrow, 1), Err(SchedError::MigrationNotAllowed));
}

#[test]
fn migrated_task_runs_on_target_not_on_source() {
    // After migrate(T, c), a schedule on c observes T as current; on the
    // previous CPU it cannot.
    let mut s = started(2);
    let t = s.register_task(SchedPolicy::Fifo, 0, 10, plain_dl(), 0b11, false).unwrap();
    s.wake_up_task(t).unwrap();
    assert_eq!(s.get_task(t).unwrap().cpu, 0);
    s.migrate_task(t, 1).unwrap();
    assert_eq!(s.schedule(0).unwrap(), ScheduleResult::GoIdle);
    assert_eq!(s.get_current_task(0), None);
    assert_eq!(s.schedule(1).unwrap(), ScheduleResult::SwitchTo(t));
    assert_eq!(s.get_current_task(1), Some(t));
}

#[test]
fn set_policy_round_trip_restores_class() {
    let mut s = started(1);
    let t = s.register_task(SchedPolicy::Normal, 5, 0, plain_dl(), 1, false).unwrap();
    let original = s.get_task(t).unwrap().policy;
    s.set_policy(t, SchedPolicy::Fifo, 0, 30, plain_dl()).unwrap();
    assert_eq!(s.get_task(t).unwrap().policy, SchedPolicy::Fifo);
    assert_eq!(s.get_task(t).unwrap().rt_priority, 30);
    s.set_policy(t, SchedPolicy::Normal, 5, 0, plain_dl()).unwrap();
    assert_eq!(s.get_task(t).unwrap().policy, original);
    // Caller errors.
    assert_eq!(
        s.set_policy(t, SchedPolicy::Normal, 99, 0, plain_dl()),
        Err(SchedError::InvalidParameter)
    );
    assert_eq!(
        s.set_policy(9, SchedPolicy::Normal, 0, 0, plain_dl()),
        Err(SchedError::TaskNotFound)
    );
}

#[test]
fn yield_and_block() {
    let mut s = started(1);
    let t = s.register_task(SchedPolicy::Normal, 0, 0, plain_dl(), 1, false).unwrap();
    s.wake_up_task(t).unwrap();
    s.schedule(0).unwrap();
    s.yield_current(0).unwrap();
    assert_eq!(s.get_current_task(0), None);
    assert_eq!(s.get_task(t).unwrap().state, TaskState::Runnable);
    s.schedule(0).unwrap();
    s.block_current(0).unwrap();
    assert_eq!(s.get_task(t).unwrap().state, TaskState::Blocked);
    assert_eq!(s.schedule(0).unwrap(), ScheduleResult::GoIdle);
    s.wake_up_task(t).unwrap();
    assert_eq!(s.get_task(t).unwrap().state, TaskState::Runnable);
}

#[test]
fn set_affinity_moves_task_off_forbidden_cpu() {
    let mut s = started(4);
    let t = s.register_task(SchedPolicy::Normal, 0, 0, plain_dl(), 0b1111, false).unwrap();
    s.wake_up_task(t).unwrap();
    s.migrate_task(t, 2).unwrap();
    s.set_affinity(t, 0b0001).unwrap();
    assert_eq!(s.get_task(t).unwrap().cpu, 0);
    assert_eq!(s.set_affinity(t, 0), Err(SchedError::InvalidParameter));
    // Demoting a running task whose CPU becomes forbidden.
    s.schedule(0).unwrap();
    assert_eq!(s.get_current_task(0), Some(t));
    s.set_affinity(t, 0b0010).unwrap();
    assert_eq!(s.get_current_task(0), None);
    let moved = s.get_task(t).unwrap();
    assert_eq!(moved.cpu, 1);
    assert_eq!(moved.state, TaskState::Runnable);
}

#[test]
fn set_affinity_checks_deadline_bandwidth() {
    // A deadline task forced off its CPU by a mask change must fit the
    // bandwidth of the CPU it moves to, like any other admission.
    let mut s = started(2);
    let half = DlParams { runtime: 50_000_000, deadline: 100_000_000, period: 100_000_000 };
    let big = DlParams { runtime: 60_000_000, deadline: 100_000_000, period: 100_000_000 };
    let small = DlParams { runtime: 30_000_000, deadline: 100_000_000, period: 100_000_000 };
    let a = s.register_task(SchedPolicy::Deadline, 0, 0, half, 0b01, false).unwrap();
    let _b = s.register_task(SchedPolicy::Deadline, 0, 0, big, 0b10, false).unwrap();
    let c = s.register_task(SchedPolicy::Deadline, 0, 0, small, 0b01, false).unwrap();
    // Moving half a CPU onto 0.6 would reach 1.1 > 0.95: refused, and the
    // task keeps its mask and CPU.
    assert_eq!(s.set_affinity(a, 0b10), Err(SchedError::AdmissionDenied));
    let kept = s.get_task(a).unwrap();
    assert_eq!(kept.affinity, 0b01);
    assert_eq!(kept.cpu, 0);
    // 0.3 on top of 0.6 fits: the move goes through.
    s.set_affinity(c, 0b10).unwrap();
    assert_eq!(s.get_task(c).unwrap().cpu, 1);
    // A mask change that keeps the task's CPU needs no admission.
    s.set_affinity(a, 0b11).unwrap();
    assert_eq!(s.get_task(a).unwrap().cpu, 0);
}

#[test]
fn priority_inheritance_boosts_and_restores() {
    // Boosting raises a real-time task's effective priority until the
    // boost ends; the nominal priority survives the round trip.
    let mut s = started(1);
    let a = s.register_task(SchedPolicy::Fifo, 0, 70, plain_dl(), 1, false).unwrap();
    let b = s.register_task(SchedPolicy::Fifo, 0, 50, plain_dl(), 1, false).unwrap();
    s.wake_up_task(a).unwrap();
    s.wake_up_task(b).unwrap();
    assert_eq!(s.schedule(0).unwrap(), ScheduleResult::SwitchTo(b));
    // Only real-time tasks can be boosted, and only within range.
    assert_eq!(s.boost_to(a, 200), Err(SchedError::InvalidParameter));
    let fair = s.register_task(SchedPolicy::Normal, 0, 0, plain_dl(), 1, false).unwrap();
    assert_eq!(s.boost_to(fair, 10), Err(SchedError::InvalidPolicy));
    // The boost outranks the running task at the next decision.
    s.boost_to(a, 30).unwrap();
    assert_eq!(s.get_task(a).unwrap().rt_priority, 30);
    assert_eq!(s.schedule(0).unwrap(), ScheduleResult::SwitchTo(a));
    // Boosting never lowers an effective priority.
    s.boost_to(a, 60).unwrap();
    assert_eq!(s.get_task(a).unwrap().rt_priority, 30);
    // Ending the boost restores the nominal priority and yields back.
    s.unboost(a).unwrap();
    assert_eq!(s.get_task(a).unwrap().rt_priority, 70);
    assert_eq!(s.schedule(0).unwrap(), ScheduleResult::SwitchTo(b));
}

#[test]
fn emergency_stop_drains_to_idle() {
    let mut s = started(2);
    let t = s.register_task(SchedPolicy::Normal, 0, 0, plain_dl(), 0b11, false).unwrap();
    s.wake_up_task(t).unwrap();
    s.schedule(0).unwrap();
    s.emergency_stop();
    assert_eq!(s.schedule(0).unwrap(), ScheduleResult::GoIdle);
    assert_eq!(s.get_state(), SchedulerState::Stopped);
    assert_eq!(s.get_current_task(0), None);
    assert_eq!(s.get_task(t).unwrap().state, TaskState::Runnable);
    assert_eq!(s.schedule(0), Err(SchedError::NotRunning));
}

#[test]
fn shutdown_stops_the_scheduler() {
    let mut s = started(1);
    let t = s.register_task(SchedPolicy::Normal, 0, 0, plain_dl(), 1, false).unwrap();
    s.wake_up_task(t).unwrap();
    s.schedule(0).unwrap();
    s.shutdown().unwrap();
    assert_eq!(s.get_state(), SchedulerState::Stopped);
    assert_eq!(s.get_current_task(0), None);
    assert_eq!(s.shutdown(), Err(SchedError::NotRunning));
    assert_eq!(s.wake_up_task(t), Err(SchedError::NotRunning));
    assert_eq!(
        s.register_task(SchedPolicy::Normal, 0, 0, plain_dl(), 1, false),
        Err(SchedError::NotRunning)
    );
}

#[test]
fn min_vruntime_is_monotone() {
    // The fair watermark of a runqueue never decreases while tasks come
    // and go.
    let mut s = started(1);
    let a = s.register_task(SchedPolicy::Normal, 0, 0, plain_dl(), 1, false).unwrap();
    let b = s.register_task(SchedPolicy::Normal, 5, 0, plain_dl(), 1, false).unwrap();
    s.wake_up_task(a).unwrap();
    s.wake_up_task(b).unwrap();
    let mut watermark = s.min_vruntime(0);
    let mut now = 0u64;
    for _ in 0..300 {
        now += 1_000_000;
        s.tick(0, now).unwrap();
        s.schedule(0).unwrap();
        let m = s.min_vruntime(0);
        assert!(m >= watermark);
        watermark = m;
    }
    assert!(watermark > 0);
}

#[test]
fn cpu_load_equals_sum_of_attached_contributions() {
    // The per-CPU PELT sum always equals the sum of the contributions of
    // the tasks currently attached to that CPU.
    let mut s = started(2);
    let a = s.register_task(SchedPolicy::Normal, 0, 0, plain_dl(), 0b11, false).unwrap();
    let b = s.register_task(SchedPolicy::Normal, 0, 0, plain_dl(), 0b11, false).unwrap();
    s.wake_up_task(a).unwrap();
    s.wake_up_task(b).unwrap();
    let mut now = 0u64;
    for _ in 0..100 {
        now += 1_000_000;
        for c in 0..2 {
            s.tick(c, now).unwrap();
            s.schedule(c).unwrap();
        }
    }
    for c in 0..2usize {
        let mut sum = 0u64;
        for t in 0..s.ntasks() {
            let task = s.get_task(t).unwrap();
            let attached = task.cpu == c
                && (task.state == TaskState::Runnable || task.state == TaskState::Running);
            if attached {
                sum += task.load_avg;
            }
        }
        assert_eq!(s.cpu_load(c), sum);
    }
}

#[test]
fn deadline_budget_and_deadline_invariants_hold() {
    // For any deadline task, budget <= C and deadline >= release, at
    // every observable point of a run.
    let mut s = started(1);
    let d = s
        .register_task(
            SchedPolicy::Deadline,
            0,
            0,
            DlParams { runtime: 2_000_000, deadline: 10_000_000, period: 10_000_000 },
            1,
            false,
        )
        .unwrap();
    s.wake_up_task(d).unwrap();
    let mut now = 0u64;
    for _ in 0..50 {
        now += 1_000_000;
        s.tick(0, now).unwrap();
        s.schedule(0).unwrap();
        let task = s.get_task(d).unwrap();
        assert!(task.dl_budget <= task.dl.runtime);
        assert!(task.dl_deadline >= task.dl_release);
    }
}

#[test]
fn debug_info_is_opt_in() {
    let s = started(2);
    assert!(s.debug_info().is_none());
    let mut config = SchedulerConfig::default();
    config.debug_enabled = true;
    let mut s = CoreScheduler::with_config(config);
    s.init(2).unwrap();
    let snap = s.debug_info().unwrap();
    assert_eq!(snap.state, SchedulerState::Running);
    assert_eq!(snap.per_cpu.len(), 2);
    assert_eq!(snap.per_cpu[1].cpu, 1);
    assert_eq!(snap.per_cpu[0].load_sum, 0);
}

#[test]
fn stats_reset_keeps_lifetime_counters() {
    let mut s = started(1);
    let t = s.register_task(SchedPolicy::Normal, 0, 0, plain_dl(), 1, false).unwrap();
    s.wake_up_task(t).unwrap();
    s.schedule(0).unwrap();
    let mut stats = s.get_stats();
    assert_eq!(stats.context_switches, 1);
    assert_eq!(stats.tasks_created, 1);
    stats.reset();
    assert_eq!(stats.context_switches, 0);
    assert_eq!(stats.tasks_created, 1);
    assert_eq!(stats.context_switches_per_sec(0), 0);
}
