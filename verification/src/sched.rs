//! The scheduler core: per-CPU run state, the task registry, and the
//! operations of the dispatcher.
//!
//! All scheduling state lives in one handle, [`CoreScheduler`].  Runqueue
//! membership is derived from the task records (see [`crate::pick`]); the
//! per-CPU state keeps the `current` slot, the fair class's `min_vruntime`
//! watermark and the real-time bandwidth window.  Time is a monotonic
//! nanosecond value supplied by the caller.

use vstd::prelude::*;

use crate::config::SchedulerConfig;
use crate::errors::SchedError;
use crate::pick::{
    dl_util_sum, select_cpu, spec_dl_util_sum, spec_select_cpu,
};
use crate::policy::{SchedClass, SchedPolicy, SchedulerState, SchedulingHint};
use crate::psi::PSIScheduler;
use crate::stats::{sat_add, sat_sub, spec_sat_add, spec_sat_sub, SchedulerStats};
use crate::task::{
    affinity_allows, spec_affinity_allows, spec_sat_add_u64, spec_weight_of_nice, weight_of_nice,
    DlParams, Task, TaskState,
};

verus! {

/// The length of the real-time bandwidth window: one second.
pub const RT_WINDOW_NS: u64 = 1_000_000_000;

/// Run state of one CPU.
#[derive(Clone, Copy, Debug, PartialEq, Eq, Structural)]
pub struct CpuRunState {
    /// The task running on this CPU, if any.
    pub current: Option<usize>,
    /// The fair class's watermark: monotone non-decreasing; advanced to
    /// the leftmost entry on dequeue.
    pub min_vruntime: u64,
    /// Whether a reschedule is pending on this CPU.
    pub resched_needed: bool,
    /// Start of the current real-time bandwidth window, nanoseconds.
    pub window_start: u64,
    /// Real-time plus deadline CPU time consumed in the current window.
    pub rt_window_used: u64,
    /// Whether the real-time classes are throttled until the next window.
    pub rt_throttled: bool,
    /// Ticks processed on this CPU.
    pub tick_count: u64,
    /// When this CPU last accounted its current task, nanoseconds.
    pub last_tick: u64,
}

impl CpuRunState {
    /// A fresh CPU at time `now`: idle, with an open bandwidth window.
    pub open spec fn spec_fresh(now: u64) -> CpuRunState {
        CpuRunState {
            current: Option::None,
            min_vruntime: 0u64,
            resched_needed: false,
            window_start: now,
            rt_window_used: 0u64,
            rt_throttled: false,
            tick_count: 0u64,
            last_tick: now,
        }
    }
}

/// The mathematical view of the scheduler: the same data with the task
/// registry and the CPU table as sequences.
#[verifier::ext_equal]
pub struct SchedView {
    /// Lifecycle state.
    pub state: SchedulerState,
    /// Configuration.
    pub config: SchedulerConfig,
    /// The task registry; a task's id is its index.
    pub tasks: Seq<Task>,
    /// Per-CPU run state.
    pub cpus: Seq<CpuRunState>,
    /// Statistics.
    pub stats: SchedulerStats,
    /// The scheduler's clock, nanoseconds.
    pub now: u64,
    /// The next enqueue stamp.
    pub next_seq: u64,
    /// Whether an emergency stop is pending.
    pub emergency: bool,
    /// The tick at which the balancer last ran.
    pub last_balance_tick: u64,
    /// Global tick counter.
    pub tick_counter: u64,
}

/// The real-time plus deadline budget of one bandwidth window,
/// nanoseconds: the configured percentage of one second.
pub open spec fn spec_rt_budget_ns(config: SchedulerConfig) -> int {
    config.rt_bandwidth_percent as int * 10_000_000
}

/// The deadline admission ceiling, per mille of one CPU.
pub open spec fn spec_dl_ceiling_permille(config: SchedulerConfig) -> int {
    config.rt_bandwidth_percent as int * 10
}

impl SchedView {
    /// Well-formedness of the whole scheduler:
    /// - the configuration is sane, the machine has at most 64 CPUs;
    /// - every task record is well-formed and sits at its id;
    /// - a `Running` task is the `current` of its CPU, and every `current`
    ///   is a `Running` task of that CPU — so a task is current on at most
    ///   one CPU, and a task in a runqueue (`Runnable`) is current nowhere;
    /// - the real-time window accounting of every CPU stays within the
    ///   configured budget plus one default time slice.
    pub open spec fn wf(self) -> bool {
        &&& self.config.wf()
        &&& self.cpus.len() <= 64
        &&& self.tasks.len() <= 0x1000_0000
        &&& (self.state != SchedulerState::Uninitialized ==> self.cpus.len() >= 1)
        &&& (self.state == SchedulerState::Uninitialized ==> self.tasks.len() == 0
            && self.cpus.len() == 0)
        &&& forall|i: int| 0 <= i < self.tasks.len() ==> (#[trigger] self.tasks[i]).id == i
        &&& forall|i: int|
            0 <= i < self.tasks.len() ==> (#[trigger] self.tasks[i]).wf(self.cpus.len() as int)
        &&& forall|i: int|
            0 <= i < self.tasks.len() && (#[trigger] self.tasks[i]).state == TaskState::Running
                ==> self.cpus[self.tasks[i].cpu as int].current == Option::Some(i as usize)
        &&& forall|c: int|
            0 <= c < self.cpus.len() ==> match (#[trigger] self.cpus[c]).current {
                Option::Some(i) => i < self.tasks.len() && self.tasks[i as int].state
                    == TaskState::Running && self.tasks[i as int].cpu == c,
                Option::None => true,
            }
        &&& forall|c: int|
            0 <= c < self.cpus.len() ==> (#[trigger] self.cpus[c]).rt_window_used
                <= spec_rt_budget_ns(self.config) + self.config.spec_timeslice_ns()
    }

    /// Whether the scheduler takes operations right now.
    pub open spec fn spec_is_running(self) -> bool {
        self.state == SchedulerState::Running
    }
}

/// The scheduler core handle.
///
/// The invariant [`CoreScheduler::inv`] is established by the constructors
/// and preserved by every operation.
#[derive(Clone, Debug)]
pub struct CoreScheduler {
    /// Lifecycle state.
    pub state: SchedulerState,
    /// Configuration.
    pub config: SchedulerConfig,
    /// The task registry; a task's id is its index.
    pub tasks: Vec<Task>,
    /// Per-CPU run state.
    pub cpus: Vec<CpuRunState>,
    /// Statistics.
    pub stats: SchedulerStats,
    /// The scheduler's clock, nanoseconds.
    pub now: u64,
    /// The next enqueue stamp.
    pub next_seq: u64,
    /// Whether an emergency stop is pending.
    pub emergency: bool,
    /// The tick at which the balancer last ran.
    pub last_balance_tick: u64,
    /// Global tick counter.
    pub tick_counter: u64,
    /// The pressure-stall tracker feeding admission hints.
    pub psi: PSIScheduler,
}

impl View for CoreScheduler {
    type V = SchedView;

    open spec fn view(&self) -> SchedView {
        SchedView {
            state: self.state,
            config: self.config,
            tasks: self.tasks@,
            cpus: self.cpus@,
            stats: self.stats,
            now: self.now,
            next_seq: self.next_seq,
            emergency: self.emergency,
            last_balance_tick: self.last_balance_tick,
            tick_counter: self.tick_counter,
        }
    }
}

impl CoreScheduler {
    /// The handle's invariant: the view is well-formed and so is the
    /// pressure tracker.
    pub open spec fn inv(self) -> bool {
        &&& self@.wf()
        &&& self.psi.wf()
    }

    /// A fresh scheduler with the default configuration, not yet
    /// initialized.
    pub fn new() -> (r: Self)
        ensures
            r.inv(),
            r@.state == SchedulerState::Uninitialized,
            r@.tasks.len() == 0,
            r@.cpus.len() == 0,
            r@.config.wf(),
            r@.stats == SchedulerStats::spec_zeroed(),
            r@.now == 0,
            !r@.emergency,
            r@.tick_counter == 0,
            r@.next_seq == 0,
            r@.last_balance_tick == 0,
    {
        Self::with_config(SchedulerConfig::default())
    }

    /// A fresh scheduler with the given configuration, not yet
    /// initialized.  CPUs appear at [`CoreScheduler::init`].
    pub fn with_config(config: SchedulerConfig) -> (r: Self)
        requires
            config.wf(),
        ensures
            r.inv(),
            r@.state == SchedulerState::Uninitialized,
            r@.config == config,
            r@.tasks.len() == 0,
            r@.cpus.len() == 0,
            r@.stats == SchedulerStats::spec_zeroed(),
            r@.now == 0,
            !r@.emergency,
            r@.tick_counter == 0,
            r@.next_seq == 0,
            r@.last_balance_tick == 0,
    {
        CoreScheduler {
            state: SchedulerState::Uninitialized,
            config,
            tasks: Vec::new(),
            cpus: Vec::new(),
            stats: SchedulerStats::new(),
            now: 0,
            next_seq: 0,
            emergency: false,
            last_balance_tick: 0,
            tick_counter: 0,
            psi: PSIScheduler::new(),
        }
    }

    /// Initialize the scheduler for a machine of `ncpus` CPUs and start
    /// taking scheduling decisions.
    pub fn init(&mut self, ncpus: usize) -> (r: Result<(), SchedError>)
        requires
            old(self).inv(),
        ensures
            final(self).inv(),
            old(self)@.state != SchedulerState::Uninitialized ==> r == Result::<(), SchedError>::Err(
                SchedError::AlreadyInitialized,
            ) && *final(self) == *old(self),
            old(self)@.state == SchedulerState::Uninitialized && !(1 <= ncpus <= 64) ==> r
                == Result::<(), SchedError>::Err(SchedError::InvalidParameter) && *final(self)
                == *old(self),
            old(self)@.state == SchedulerState::Uninitialized && 1 <= ncpus <= 64 ==> {
                &&& r is Ok
                &&& final(self)@.state == SchedulerState::Running
                &&& final(self)@.cpus.len() == ncpus
                &&& final(self)@.tasks == old(self)@.tasks
                &&& final(self)@.config == old(self)@.config
                &&& forall|c: int|
                    0 <= c < ncpus ==> final(self)@.cpus[c] == CpuRunState::spec_fresh(
                        old(self)@.now,
                    )
            },
    {
        if !matches!(self.state, SchedulerState::Uninitialized) {
            return Err(SchedError::AlreadyInitialized);
        }
        if ncpus < 1 || ncpus > 64 {
            return Err(SchedError::InvalidParameter);
        }
        self.state = SchedulerState::Initializing;
        let mut cpus: Vec<CpuRunState> = Vec::new();
        let mut c: usize = 0;
        while c < ncpus
            invariant
                0 <= c <= ncpus,
                cpus@.len() == c,
                forall|k: int| 0 <= k < c ==> cpus@[k] == CpuRunState::spec_fresh(self.now),
                *self == (CoreScheduler { state: SchedulerState::Initializing, ..*old(self) }),
            decreases ncpus - c,
        {
            cpus.push(
                CpuRunState {
                    current: None,
                    min_vruntime: 0,
                    resched_needed: false,
                    window_start: self.now,
                    rt_window_used: 0,
                    rt_throttled: false,
                    tick_count: 0,
                    last_tick: self.now,
                },
            );
            c = c + 1;
        }
        self.cpus = cpus;
        self.state = SchedulerState::Running;
        Ok(())
    }

    /// Whether the scheduler is in the `Running` state.
    pub fn is_running(&self) -> (r: bool)
        ensures
            r == self@.spec_is_running(),
    {
        matches!(self.state, SchedulerState::Running)
    }

    /// The lifecycle state.
    pub fn get_state(&self) -> (r: SchedulerState)
        ensures
            r == self@.state,
    {
        self.state
    }

    /// The number of CPUs of the machine.
    pub fn ncpus(&self) -> (r: usize)
        ensures
            r == self@.cpus.len(),
    {
        self.cpus.len()
    }

    /// The number of registered tasks.
    pub fn ntasks(&self) -> (r: usize)
        ensures
            r == self@.tasks.len(),
    {
        self.tasks.len()
    }

    /// A copy of one task record.
    pub fn get_task(&self, tid: usize) -> (r: Option<Task>)
        ensures
            tid < self@.tasks.len() ==> r == Option::Some(self@.tasks[tid as int]),
            tid >= self@.tasks.len() ==> r is None,
    {
        if tid < self.tasks.len() {
            Some(self.tasks[tid])
        } else {
            None
        }
    }

    /// The task currently running on a CPU.
    pub fn get_current_task(&self, cpu: usize) -> (r: Option<usize>)
        requires
            cpu < self@.cpus.len(),
        ensures
            r == self@.cpus[cpu as int].current,
    {
        self.cpus[cpu].current
    }

    /// A copy of the statistics.
    pub fn get_stats(&self) -> (r: SchedulerStats)
        ensures
            r == self@.stats,
    {
        self.stats
    }

    /// The PELT load sum of one CPU: always exactly the sum of the load
    /// contributions of the tasks currently attached to it.
    pub fn cpu_load(&self, cpu: usize) -> (r: u64)
        requires
            self.inv(),
        ensures
            r == crate::pelt::spec_cpu_load_sum(self@.tasks, cpu as int),
    {
        crate::pelt::cpu_load_sum(&self.tasks, cpu)
    }

    /// The fair watermark of one CPU.
    pub fn min_vruntime(&self, cpu: usize) -> (r: u64)
        requires
            cpu < self@.cpus.len(),
        ensures
            r == self@.cpus[cpu as int].min_vruntime,
    {
        self.cpus[cpu].min_vruntime
    }

    /// Feed one set of pressure measurements (percent) to the tracker.
    pub fn update_pressure(&mut self, cpu: u64, memory: u64, io: u64) -> (r: Result<
        (),
        SchedError,
    >)
        requires
            old(self).inv(),
        ensures
            final(self).inv(),
            final(self)@ == old(self)@,
            cpu <= 100 && memory <= 100 && io <= 100 ==> r is Ok && ({
                let now_us = (old(self)@.now / 1000) as u64;
                &&& final(self).psi.config == old(self).psi.config
                &&& (old(self).psi.spec_update_gated(now_us) ==> final(self).psi == old(self).psi)
                &&& (!old(self).psi.spec_update_gated(now_us) ==> final(self).psi.metrics == (
                crate::psi::PSIMetrics {
                    cpu_pressure: cpu,
                    memory_pressure: memory,
                    io_pressure: io,
                    last_updated: now_us,
                }))
            }),
            !(cpu <= 100 && memory <= 100 && io <= 100) ==> r == Result::<(), SchedError>::Err(
                SchedError::InvalidParameter,
            ) && final(self).psi == old(self).psi,
    {
        if cpu > 100 || memory > 100 || io > 100 {
            return Err(SchedError::InvalidParameter);
        }
        let now_us = self.now / 1000;
        self.psi.update_metrics(now_us, cpu, memory, io);
        Ok(())
    }

    /// The current advisory scheduling hint from pressure-stall tracking.
    pub fn get_scheduling_hint(&self) -> (r: SchedulingHint)
        ensures
            r == self.psi.spec_scheduling_hint(),
    {
        self.psi.get_scheduling_hint()
    }

    /// The pressure-stall tracker.
    pub fn pressure(&self) -> (r: &PSIScheduler)
        ensures
            *r == self.psi,
    {
        &self.psi
    }

    /// Request an emergency stop: observed at the top of the next
    /// `schedule` call, which drains every CPU and stops the scheduler.
    pub fn emergency_stop(&mut self)
        requires
            old(self).inv(),
        ensures
            final(self).inv(),
            final(self)@ == (SchedView { emergency: true, ..old(self)@ }),
            final(self).psi == old(self).psi,
    {
        self.emergency = true;
    }

    /// The outcome of a migration request, its checks tried in this order:
    /// the scheduler must be running, the task must exist, the target CPU
    /// must exist, the task must not be pinned nor running, the affinity
    /// mask must allow the target, and a deadline task must fit in the
    /// target CPU's bandwidth.
    pub open spec fn spec_migrate_err(v: SchedView, tid: int, target: int) -> Option<SchedError> {
        if !v.spec_is_running() {
            Option::Some(SchedError::NotRunning)
        } else if tid < 0 || tid >= v.tasks.len() {
            Option::Some(SchedError::TaskNotFound)
        } else if target < 0 || target >= v.cpus.len() {
            Option::Some(SchedError::InvalidParameter)
        } else if v.tasks[tid].pinned {
            Option::Some(SchedError::PinnedTask)
        } else if v.tasks[tid].state == TaskState::Running {
            Option::Some(SchedError::MigrationNotAllowed)
        } else if !spec_affinity_allows(v.tasks[tid].affinity, target as usize) {
            Option::Some(SchedError::AffinityViolation)
        } else if v.tasks[tid].policy.spec_class() == SchedClass::DeadlineClass && v.tasks[tid].cpu
            != target && spec_dl_util_sum(v.tasks, target) + v.tasks[tid].dl.spec_util_permille()
            > spec_dl_ceiling_permille(v.config) {
            Option::Some(SchedError::AdmissionDenied)
        } else {
            Option::None
        }
    }

    /// The scheduler after a successful migration: only the task's CPU
    /// assignment and the migration counter change.
    pub open spec fn spec_migrate_post(v: SchedView, tid: int, target: int) -> SchedView {
        SchedView {
            tasks: v.tasks.update(
                tid,
                Task { cpu: target as usize, ..v.tasks[tid] },
            ),
            stats: SchedulerStats {
                migrations: spec_sat_add(v.stats.migrations, 1),
                ..v.stats
            },
            ..v
        }
    }

    /// Migrate a task to another CPU.  No migration ever violates the
    /// task's affinity mask: on success the target CPU is allowed by the
    /// mask the task had when the call was made.
    #[verifier::rlimit(50)]
    pub fn migrate_task(&mut self, tid: usize, target_cpu: usize) -> (r: Result<(), SchedError>)
        requires
            old(self).inv(),
        ensures
            final(self).inv(),
            final(self).psi == old(self).psi,
            match Self::spec_migrate_err(old(self)@, tid as int, target_cpu as int) {
                Option::Some(e) => r == Result::<(), SchedError>::Err(e) && final(self)@ == old(
                    self,
                )@,
                Option::None => r is Ok && final(self)@ == Self::spec_migrate_post(
                    old(self)@,
                    tid as int,
                    target_cpu as int,
                ),
            },
            r is Ok ==> spec_affinity_allows(
                old(self)@.tasks[tid as int].affinity,
                target_cpu,
            ),
    {
        if !self.is_running() {
            return Err(SchedError::NotRunning);
        }
        if tid >= self.tasks.len() {
            return Err(SchedError::TaskNotFound);
        }
        if target_cpu >= self.cpus.len() {
            return Err(SchedError::InvalidParameter);
        }
        let t = self.tasks[tid];
        if t.pinned {
            return Err(SchedError::PinnedTask);
        }
        if matches!(t.state, TaskState::Running) {
            return Err(SchedError::MigrationNotAllowed);
        }
        if !affinity_allows(t.affinity, target_cpu) {
            return Err(SchedError::AffinityViolation);
        }
        if matches!(t.policy.class(), SchedClass::DeadlineClass) && t.cpu != target_cpu {
            let sum = dl_util_sum(&self.tasks, target_cpu);
            let ceiling = (self.config.rt_bandwidth_percent as u64) * 10;
            if sum + t.dl.util_permille() > ceiling {
                return Err(SchedError::AdmissionDenied);
            }
        }
        let moved = Task { cpu: target_cpu, ..t };
        self.tasks.set(tid, moved);
        self.stats.migrations = sat_add(self.stats.migrations, 1);
        proof {
            let post = Self::spec_migrate_post(old(self)@, tid as int, target_cpu as int);
            assert(self@.tasks =~= post.tasks);
            assert(self@ =~= post);
        }
        Ok(())
    }

    /// The lowest CPU among the first `n` that the mask allows.
    pub open spec fn spec_first_allowed(mask: u64, n: int) -> Option<int>
        recommends
            0 <= n <= 64,
        decreases n,
    {
        if n <= 0 {
            Option::None
        } else {
            match Self::spec_first_allowed(mask, n - 1) {
                Option::Some(c) => Option::Some(c),
                Option::None => if spec_affinity_allows(mask, (n - 1) as usize) {
                    Option::Some(n - 1)
                } else {
                    Option::None
                },
            }
        }
    }

    /// The first allowed CPU is allowed and within range.
    pub proof fn lemma_first_allowed(mask: u64, n: int)
        requires
            0 <= n <= 64,
        ensures
            match Self::spec_first_allowed(mask, n) {
                Option::Some(c) => 0 <= c < n && spec_affinity_allows(mask, c as usize),
                Option::None => forall|c: int|
                    0 <= c < n ==> !#[trigger] spec_affinity_allows(mask, c as usize),
            },
        decreases n,
    {
        if n > 0 {
            Self::lemma_first_allowed(mask, n - 1);
        }
    }

    /// Once the scan has found the first allowed CPU, widening the range
    /// does not change it.
    pub proof fn lemma_first_allowed_extend(mask: u64, m: int, n: int)
        requires
            0 <= m <= n <= 64,
            Self::spec_first_allowed(mask, m) is Some,
        ensures
            Self::spec_first_allowed(mask, n) == Self::spec_first_allowed(mask, m),
        decreases n,
    {
        if n > m {
            Self::lemma_first_allowed_extend(mask, m, n - 1);
        }
    }

    /// Executable form of [`CoreScheduler::spec_first_allowed`].
    fn first_allowed(mask: u64, n: usize) -> (r: Option<usize>)
        requires
            n <= 64,
        ensures
            match r {
                Option::Some(c) => Option::Some(c as int) == Self::spec_first_allowed(
                    mask,
                    n as int,
                ) && c < n,
                Option::None => Option::None::<int> == Self::spec_first_allowed(mask, n as int),
            },
    {
        let mut c: usize = 0;
        while c < n
            invariant
                0 <= c <= n,
                n <= 64,
                Option::None::<int> == Self::spec_first_allowed(mask, c as int),
            decreases n - c,
        {
            if affinity_allows(mask, c) {
                proof {
                    assert(Self::spec_first_allowed(mask, c as int + 1) == Option::Some(c as int));
                    Self::lemma_first_allowed_extend(mask, c as int + 1, n as int);
                }
                return Some(c);
            }
            c = c + 1;
        }
        None
    }

    /// The outcome of registering a task, its checks tried in this order: the
    /// scheduler must be running, the registry must have room, nice and
    /// real-time priority must be in range, deadline parameters must be
    /// sane, the affinity mask must allow some CPU of the machine, the
    /// pressure tracker must not be limiting new batch or background
    /// tasks, and a deadline task must fit the bandwidth of the CPU it is
    /// placed on.
    pub open spec fn spec_register_err(
        v: SchedView,
        hint: SchedulingHint,
        policy: SchedPolicy,
        nice: i32,
        rt_priority: u32,
        dl: DlParams,
        affinity: u64,
    ) -> Option<SchedError> {
        let is_dl = policy.spec_class() == SchedClass::DeadlineClass;
        if !v.spec_is_running() {
            Option::Some(SchedError::NotRunning)
        } else if v.tasks.len() >= 0x1000_0000 {
            Option::Some(SchedError::InvalidParameter)
        } else if !(-20 <= nice <= 19) || rt_priority > 99 {
            Option::Some(SchedError::InvalidParameter)
        } else if is_dl && !dl.wf() {
            Option::Some(SchedError::InvalidParameter)
        } else if Self::spec_first_allowed(affinity, v.cpus.len() as int) is None {
            Option::Some(SchedError::InvalidParameter)
        } else if policy.spec_is_batch_variant() && (hint == SchedulingHint::LimitNewTasks || hint
            == SchedulingHint::ReduceLoad) {
            Option::Some(SchedError::AdmissionDenied)
        } else if is_dl && spec_dl_util_sum(
            v.tasks,
            Self::spec_register_cpu(v, affinity),
        ) + dl.spec_util_permille() > spec_dl_ceiling_permille(v.config) {
            Option::Some(SchedError::AdmissionDenied)
        } else {
            Option::None
        }
    }

    /// The CPU a new task is placed on: the least-loaded CPU its mask
    /// allows, ties broken toward the lowest allowed CPU.
    pub open spec fn spec_register_cpu(v: SchedView, affinity: u64) -> int {
        let prev = match Self::spec_first_allowed(affinity, v.cpus.len() as int) {
            Option::Some(c) => c,
            Option::None => 0,
        };
        spec_select_cpu(v.tasks, affinity, prev, v.cpus.len() as int)
    }

    /// The scheduler after a successful registration.
    pub open spec fn spec_register_post(
        v: SchedView,
        policy: SchedPolicy,
        nice: i32,
        rt_priority: u32,
        dl: DlParams,
        affinity: u64,
        pinned: bool,
    ) -> SchedView {
        let cpu = Self::spec_register_cpu(v, affinity);
        let t = Task::spec_new(
            v.tasks.len() as usize,
            policy,
            nice,
            rt_priority,
            dl,
            affinity,
            pinned,
            cpu as usize,
            v.now,
        );
        SchedView {
            tasks: v.tasks.push(t),
            stats: SchedulerStats {
                tasks_created: spec_sat_add(v.stats.tasks_created, 1),
                ..v.stats
            },
            ..v
        }
    }

    /// Register a task with the scheduler.  The new task starts in the
    /// `Created` state on the least-loaded CPU its affinity allows, and
    /// its id is returned.  Batch and background tasks are refused while
    /// pressure-stall tracking asks to limit new tasks; a deadline task is
    /// refused when its bandwidth does not fit its CPU.
    #[verifier::rlimit(100)]
    pub fn register_task(
        &mut self,
        policy: SchedPolicy,
        nice: i32,
        rt_priority: u32,
        dl: DlParams,
        affinity: u64,
        pinned: bool,
    ) -> (r: Result<usize, SchedError>)
        requires
            old(self).inv(),
        ensures
            final(self).inv(),
            final(self).psi == old(self).psi,
            match Self::spec_register_err(
                old(self)@,
                old(self).psi.spec_scheduling_hint(),
                policy,
                nice,
                rt_priority,
                dl,
                affinity,
            ) {
                Option::Some(e) => r == Result::<usize, SchedError>::Err(e) && final(self)@ == old(
                    self,
                )@,
                Option::None => r == Result::<usize, SchedError>::Ok(old(self)@.tasks.len() as usize)
                    && final(self)@ == Self::spec_register_post(
                    old(self)@,
                    policy,
                    nice,
                    rt_priority,
                    dl,
                    affinity,
                    pinned,
                ),
            },
    {
        if !self.is_running() {
            return Err(SchedError::NotRunning);
        }
        if self.tasks.len() >= 0x1000_0000 {
            return Err(SchedError::InvalidParameter);
        }
        if nice < -20 || nice > 19 || rt_priority > 99 {
            return Err(SchedError::InvalidParameter);
        }
        let is_dl = matches!(policy.class(), SchedClass::DeadlineClass);
        if is_dl && !dl.is_valid() {
            return Err(SchedError::InvalidParameter);
        }
        let ncpus = self.cpus.len();
        let prev = match Self::first_allowed(affinity, ncpus) {
            Some(c) => c,
            None => {
                return Err(SchedError::InvalidParameter);
            },
        };
        let hint = self.psi.get_scheduling_hint();
        if policy.is_batch_variant() && (matches!(hint, SchedulingHint::LimitNewTasks) || matches!(
            hint,
            SchedulingHint::ReduceLoad,
        )) {
            return Err(SchedError::AdmissionDenied);
        }
        let cpu = select_cpu(&self.tasks, affinity, prev, ncpus);
        if is_dl {
            let sum = dl_util_sum(&self.tasks, cpu);
            let ceiling = (self.config.rt_bandwidth_percent as u64) * 10;
            if sum + dl.util_permille() > ceiling {
                return Err(SchedError::AdmissionDenied);
            }
        }
        let id = self.tasks.len();
        proof {
            Self::lemma_first_allowed(affinity, ncpus as int);
            crate::pick::lemma_best_cpu_allowed(
                self@.tasks,
                affinity,
                prev as int,
                ncpus as int,
            );
            assert(spec_affinity_allows(affinity, cpu));
        }
        let t = Task::new(id, policy, nice, rt_priority, dl, affinity, pinned, cpu, self.now);
        self.tasks.push(t);
        self.stats.tasks_created = sat_add(self.stats.tasks_created, 1);
        proof {
            let post = Self::spec_register_post(
                old(self)@,
                policy,
                nice,
                rt_priority,
                dl,
                affinity,
                pinned,
            );
            assert(self@.tasks =~= post.tasks);
            assert(self@ =~= post);
        }
        Ok(id)
    }

    /// The outcome of a policy change, its checks tried in this order: the
    /// scheduler must be running, the task must exist, nice and real-time
    /// priority must be in range, deadline parameters must be sane, and a
    /// change to the deadline class must fit the bandwidth of the task's
    /// CPU (the task's own old deadline share, if any, is released first).
    pub open spec fn spec_set_policy_err(
        v: SchedView,
        tid: int,
        policy: SchedPolicy,
        nice: i32,
        rt_priority: u32,
        dl: DlParams,
    ) -> Option<SchedError> {
        let is_dl = policy.spec_class() == SchedClass::DeadlineClass;
        if !v.spec_is_running() {
            Option::Some(SchedError::NotRunning)
        } else if tid < 0 || tid >= v.tasks.len() {
            Option::Some(SchedError::TaskNotFound)
        } else if !(-20 <= nice <= 19) || rt_priority > 99 {
            Option::Some(SchedError::InvalidParameter)
        } else if is_dl && !dl.wf() {
            Option::Some(SchedError::InvalidParameter)
        } else if is_dl && spec_dl_util_sum(v.tasks, v.tasks[tid].cpu as int) - (
        if v.tasks[tid].policy.spec_class() == SchedClass::DeadlineClass {
            v.tasks[tid].dl.spec_util_permille() as int
        } else {
            0
        }) + dl.spec_util_permille() > spec_dl_ceiling_permille(v.config) {
            Option::Some(SchedError::AdmissionDenied)
        } else {
            Option::None
        }
    }

    /// The scheduler after a successful policy change: the task carries
    /// the new policy, weight and parameters, re-enters its class's queue
    /// order with a fresh enqueue stamp, and everything else stays.
    pub open spec fn spec_set_policy_post(
        v: SchedView,
        tid: int,
        policy: SchedPolicy,
        nice: i32,
        rt_priority: u32,
        dl: DlParams,
    ) -> SchedView {
        let t = v.tasks[tid];
        let is_dl = policy.spec_class() == SchedClass::DeadlineClass;
        let t2 = Task {
            policy,
            nice,
            weight: spec_weight_of_nice(nice),
            rt_priority,
            nominal_rt_priority: rt_priority,
            dl: if is_dl {
                dl
            } else {
                t.dl
            },
            dl_budget: if is_dl {
                dl.runtime
            } else {
                t.dl_budget
            },
            dl_release: if is_dl {
                v.now
            } else {
                t.dl_release
            },
            dl_deadline: if is_dl {
                spec_sat_add_u64(v.now, dl.deadline)
            } else {
                t.dl_deadline
            },
            timeslice_left: if policy == SchedPolicy::RoundRobin {
                v.config.spec_timeslice_ns()
            } else {
                t.timeslice_left
            },
            enqueue_seq: v.next_seq,
            ..t
        };
        SchedView {
            tasks: v.tasks.update(tid, t2),
            next_seq: spec_sat_add(v.next_seq, 1),
            ..v
        }
    }

    /// Change a task's scheduling policy and parameters, with admission
    /// side effects.  On success the task's policy is exactly the one
    /// requested, so changing the policy back returns the task to its
    /// original class.
    #[verifier::rlimit(50)]
    pub fn set_policy(
        &mut self,
        tid: usize,
        policy: SchedPolicy,
        nice: i32,
        rt_priority: u32,
        dl: DlParams,
    ) -> (r: Result<(), SchedError>)
        requires
            old(self).inv(),
        ensures
            final(self).inv(),
            final(self).psi == old(self).psi,
            match Self::spec_set_policy_err(old(self)@, tid as int, policy, nice, rt_priority, dl) {
                Option::Some(e) => r == Result::<(), SchedError>::Err(e) && final(self)@ == old(
                    self,
                )@,
                Option::None => r is Ok && final(self)@ == Self::spec_set_policy_post(
                    old(self)@,
                    tid as int,
                    policy,
                    nice,
                    rt_priority,
                    dl,
                ),
            },
            r is Ok ==> final(self)@.tasks[tid as int].policy == policy,
    {
        if !self.is_running() {
            return Err(SchedError::NotRunning);
        }
        if tid >= self.tasks.len() {
            return Err(SchedError::TaskNotFound);
        }
        if nice < -20 || nice > 19 || rt_priority > 99 {
            return Err(SchedError::InvalidParameter);
        }
        let is_dl = matches!(policy.class(), SchedClass::DeadlineClass);
        if is_dl && !dl.is_valid() {
            return Err(SchedError::InvalidParameter);
        }
        let t = self.tasks[tid];
        if is_dl {
            let sum = dl_util_sum(&self.tasks, t.cpu);
            let released: u64 = if matches!(t.policy.class(), SchedClass::DeadlineClass) {
                proof {
                    lemma_dl_sum_lower(self@.tasks, t.cpu as int, tid as int);
                }
                t.dl.util_permille()
            } else {
                0
            };
            let ceiling = (self.config.rt_bandwidth_percent as u64) * 10;
            if sum - released + dl.util_permille() > ceiling {
                return Err(SchedError::AdmissionDenied);
            }
        }
        let t2 = Task {
            policy,
            nice,
            weight: weight_of_nice(nice),
            rt_priority,
            nominal_rt_priority: rt_priority,
            dl: if is_dl {
                dl
            } else {
                t.dl
            },
            dl_budget: if is_dl {
                dl.runtime
            } else {
                t.dl_budget
            },
            dl_release: if is_dl {
                self.now
            } else {
                t.dl_release
            },
            dl_deadline: if is_dl {
                sat_add(self.now, dl.deadline)
            } else {
                t.dl_deadline
            },
            timeslice_left: if matches!(policy, SchedPolicy::RoundRobin) {
                self.config.timeslice_ns()
            } else {
                t.timeslice_left
            },
            enqueue_seq: self.next_seq,
            ..t
        };
        self.tasks.set(tid, t2);
        self.next_seq = sat_add(self.next_seq, 1);
        proof {
            let post = Self::spec_set_policy_post(
                old(self)@,
                tid as int,
                policy,
                nice,
                rt_priority,
                dl,
            );
            assert(self@.tasks =~= post.tasks);
            assert(self@ =~= post);
        }
        Ok(())
    }

    /// The outcome of an affinity change, its checks tried in this
    /// order: the scheduler must be running, the task must exist, the
    /// mask must allow some CPU of the machine, and a deadline task that
    /// has to move must fit the bandwidth of the CPU it moves to.
    pub open spec fn spec_set_affinity_err(v: SchedView, tid: int, mask: u64) -> Option<
        SchedError,
    > {
        if !v.spec_is_running() {
            Option::Some(SchedError::NotRunning)
        } else if tid < 0 || tid >= v.tasks.len() {
            Option::Some(SchedError::TaskNotFound)
        } else if Self::spec_first_allowed(mask, v.cpus.len() as int) is None {
            Option::Some(SchedError::InvalidParameter)
        } else {
            let t = v.tasks[tid];
            let nc = match Self::spec_first_allowed(mask, v.cpus.len() as int) {
                Option::Some(c) => c,
                Option::None => 0,
            };
            if !spec_affinity_allows(mask, t.cpu) && t.policy.spec_class()
                == SchedClass::DeadlineClass && spec_dl_util_sum(v.tasks, nc)
                + t.dl.spec_util_permille() > spec_dl_ceiling_permille(v.config) {
                Option::Some(SchedError::AdmissionDenied)
            } else {
                Option::None
            }
        }
    }

    /// The scheduler after an affinity change.  When the new mask still
    /// allows the task's CPU only the mask changes; otherwise the task
    /// moves to the lowest CPU the mask allows, a running task is demoted
    /// to `Runnable` and its CPU told to reschedule.
    pub open spec fn spec_set_affinity_post(v: SchedView, tid: int, mask: u64) -> SchedView {
        let t = v.tasks[tid];
        if spec_affinity_allows(mask, t.cpu) {
            SchedView { tasks: v.tasks.update(tid, Task { affinity: mask, ..t }), ..v }
        } else {
            let nc = match Self::spec_first_allowed(mask, v.cpus.len() as int) {
                Option::Some(c) => c,
                Option::None => 0,
            };
            if t.state == TaskState::Running {
                SchedView {
                    tasks: v.tasks.update(
                        tid,
                        Task {
                            affinity: mask,
                            cpu: nc as usize,
                            state: TaskState::Runnable,
                            enqueue_seq: v.next_seq,
                            ..t
                        },
                    ),
                    cpus: v.cpus.update(
                        t.cpu as int,
                        CpuRunState {
                            current: Option::None,
                            resched_needed: true,
                            ..v.cpus[t.cpu as int]
                        },
                    ),
                    next_seq: spec_sat_add(v.next_seq, 1),
                    stats: SchedulerStats {
                        migrations: spec_sat_add(v.stats.migrations, 1),
                        ..v.stats
                    },
                    ..v
                }
            } else {
                SchedView {
                    tasks: v.tasks.update(
                        tid,
                        Task { affinity: mask, cpu: nc as usize, ..t },
                    ),
                    stats: SchedulerStats {
                        migrations: spec_sat_add(v.stats.migrations, 1),
                        ..v.stats
                    },
                    ..v
                }
            }
        }
    }

    /// Change a task's CPU affinity mask, with admission side effects: a
    /// mask that allows no CPU of the machine is refused, and a deadline
    /// task whose move would not fit the target CPU's bandwidth keeps its
    /// old mask.  Otherwise the task is moved if its CPU is no longer
    /// allowed.
    #[verifier::rlimit(50)]
    pub fn set_affinity(&mut self, tid: usize, mask: u64) -> (r: Result<(), SchedError>)
        requires
            old(self).inv(),
        ensures
            final(self).inv(),
            final(self).psi == old(self).psi,
            match Self::spec_set_affinity_err(old(self)@, tid as int, mask) {
                Option::Some(e) => r == Result::<(), SchedError>::Err(e) && final(self)@ == old(
                    self,
                )@,
                Option::None => r is Ok && final(self)@ == Self::spec_set_affinity_post(
                    old(self)@,
                    tid as int,
                    mask,
                ) && spec_affinity_allows(mask, final(self)@.tasks[tid as int].cpu),
            },
    {
        if !self.is_running() {
            return Err(SchedError::NotRunning);
        }
        if tid >= self.tasks.len() {
            return Err(SchedError::TaskNotFound);
        }
        let ncpus = self.cpus.len();
        let nc = match Self::first_allowed(mask, ncpus) {
            Some(c) => c,
            None => {
                return Err(SchedError::InvalidParameter);
            },
        };
        proof {
            Self::lemma_first_allowed(mask, ncpus as int);
        }
        let t = self.tasks[tid];
        if !affinity_allows(mask, t.cpu) && matches!(t.policy.class(), SchedClass::DeadlineClass) {
            let sum = dl_util_sum(&self.tasks, nc);
            let ceiling = (self.config.rt_bandwidth_percent as u64) * 10;
            if sum + t.dl.util_permille() > ceiling {
                return Err(SchedError::AdmissionDenied);
            }
        }
        if affinity_allows(mask, t.cpu) {
            self.tasks.set(tid, Task { affinity: mask, ..t });
            proof {
                let post = Self::spec_set_affinity_post(old(self)@, tid as int, mask);
                assert(self@.tasks =~= post.tasks);
                assert(self@ =~= post);
            }
            return Ok(());
        }
        if matches!(t.state, TaskState::Running) {
            let t2 = Task {
                affinity: mask,
                cpu: nc,
                state: TaskState::Runnable,
                enqueue_seq: self.next_seq,
                ..t
            };
            self.tasks.set(tid, t2);
            let old_cpu_state = self.cpus[t.cpu];
            self.cpus.set(
                t.cpu,
                CpuRunState { current: None, resched_needed: true, ..old_cpu_state },
            );
            self.next_seq = sat_add(self.next_seq, 1);
            self.stats.migrations = sat_add(self.stats.migrations, 1);
            proof {
                let post = Self::spec_set_affinity_post(old(self)@, tid as int, mask);
                assert(self@.tasks =~= post.tasks);
                assert(self@.cpus =~= post.cpus);
                assert(self@ =~= post);
            }
        } else {
            self.tasks.set(tid, Task { affinity: mask, cpu: nc, ..t });
            self.stats.migrations = sat_add(self.stats.migrations, 1);
            proof {
                let post = Self::spec_set_affinity_post(old(self)@, tid as int, mask);
                assert(self@.tasks =~= post.tasks);
                assert(self@ =~= post);
            }
        }
        Ok(())
    }

    /// The scheduler after the current task of a CPU yields: it re-enters
    /// its runqueue at the tail of its class's order with a fresh enqueue
    /// stamp (a round-robin task also gets a fresh slice), the CPU's
    /// `current` slot empties and a reschedule is flagged.
    pub open spec fn spec_yield_post(v: SchedView, cpu: int) -> SchedView {
        match v.cpus[cpu].current {
            Option::None => v,
            Option::Some(p) => {
                let t = v.tasks[p as int];
                let t2 = Task {
                    state: TaskState::Runnable,
                    enqueue_seq: v.next_seq,
                    timeslice_left: if t.policy == SchedPolicy::RoundRobin {
                        v.config.spec_timeslice_ns()
                    } else {
                        t.timeslice_left
                    },
                    ..t
                };
                SchedView {
                    tasks: v.tasks.update(p as int, t2),
                    cpus: v.cpus.update(
                        cpu,
                        CpuRunState {
                            current: Option::None,
                            resched_needed: true,
                            ..v.cpus[cpu]
                        },
                    ),
                    next_seq: spec_sat_add(v.next_seq, 1),
                    ..v
                }
            },
        }
    }

    /// Yield the CPU's current task back to its runqueue.
    #[verifier::rlimit(50)]
    pub fn yield_current(&mut self, cpu: usize) -> (r: Result<(), SchedError>)
        requires
            old(self).inv(),
        ensures
            final(self).inv(),
            final(self).psi == old(self).psi,
            !old(self)@.spec_is_running() ==> r == Result::<(), SchedError>::Err(
                SchedError::NotRunning,
            ) && final(self)@ == old(self)@,
            old(self)@.spec_is_running() && cpu >= old(self)@.cpus.len() ==> r == Result::<
                (),
                SchedError,
            >::Err(SchedError::InvalidParameter) && final(self)@ == old(self)@,
            old(self)@.spec_is_running() && cpu < old(self)@.cpus.len() ==> r is Ok && final(self)@
                == Self::spec_yield_post(old(self)@, cpu as int),
    {
        if !self.is_running() {
            return Err(SchedError::NotRunning);
        }
        if cpu >= self.cpus.len() {
            return Err(SchedError::InvalidParameter);
        }
        match self.cpus[cpu].current {
            None => Ok(()),
            Some(p) => {
                let t = self.tasks[p];
                let t2 = Task {
                    state: TaskState::Runnable,
                    enqueue_seq: self.next_seq,
                    timeslice_left: if matches!(t.policy, SchedPolicy::RoundRobin) {
                        self.config.timeslice_ns()
                    } else {
                        t.timeslice_left
                    },
                    ..t
                };
                self.tasks.set(p, t2);
                let cs = self.cpus[cpu];
                self.cpus.set(cpu, CpuRunState { current: None, resched_needed: true, ..cs });
                self.next_seq = sat_add(self.next_seq, 1);
                proof {
                    let post = Self::spec_yield_post(old(self)@, cpu as int);
                    assert(self@.tasks =~= post.tasks);
                    assert(self@.cpus =~= post.cpus);
                    assert(self@ =~= post);
                }
                Ok(())
            },
        }
    }

    /// The scheduler after the current task of a CPU blocks: the task
    /// leaves every runqueue (`Blocked`), the CPU's `current` slot empties
    /// and a reschedule is flagged.
    pub open spec fn spec_block_post(v: SchedView, cpu: int) -> SchedView {
        match v.cpus[cpu].current {
            Option::None => v,
            Option::Some(p) => SchedView {
                tasks: v.tasks.update(
                    p as int,
                    Task { state: TaskState::Blocked, ..v.tasks[p as int] },
                ),
                cpus: v.cpus.update(
                    cpu,
                    CpuRunState { current: Option::None, resched_needed: true, ..v.cpus[cpu] },
                ),
                ..v
            },
        }
    }

    /// Block the CPU's current task: it waits for a wake-up and stands in
    /// no runqueue meanwhile.
    #[verifier::rlimit(50)]
    pub fn block_current(&mut self, cpu: usize) -> (r: Result<(), SchedError>)
        requires
            old(self).inv(),
        ensures
            final(self).inv(),
            final(self).psi == old(self).psi,
            !old(self)@.spec_is_running() ==> r == Result::<(), SchedError>::Err(
                SchedError::NotRunning,
            ) && final(self)@ == old(self)@,
            old(self)@.spec_is_running() && cpu >= old(self)@.cpus.len() ==> r == Result::<
                (),
                SchedError,
            >::Err(SchedError::InvalidParameter) && final(self)@ == old(self)@,
            old(self)@.spec_is_running() && cpu < old(self)@.cpus.len() ==> r is Ok && final(self)@
                == Self::spec_block_post(old(self)@, cpu as int),
    {
        if !self.is_running() {
            return Err(SchedError::NotRunning);
        }
        if cpu >= self.cpus.len() {
            return Err(SchedError::InvalidParameter);
        }
        match self.cpus[cpu].current {
            None => Ok(()),
            Some(p) => {
                let t = self.tasks[p];
                self.tasks.set(p, Task { state: TaskState::Blocked, ..t });
                let cs = self.cpus[cpu];
                self.cpus.set(cpu, CpuRunState { current: None, resched_needed: true, ..cs });
                proof {
                    let post = Self::spec_block_post(old(self)@, cpu as int);
                    assert(self@.tasks =~= post.tasks);
                    assert(self@.cpus =~= post.cpus);
                    assert(self@ =~= post);
                }
                Ok(())
            },
        }
    }
    /// The wake-up preemption granularity of the fair class, nanoseconds.
    pub open spec fn spec_wakeup_granularity(config: SchedulerConfig) -> int {
        config.spec_timeslice_ns() as int / 10
    }

    /// A deadline task waking after its deadline passed starts a fresh
    /// job; one waking with leftover budget whose deadline is too
    /// generous — later than `now + (q/C)·T` — also gets a fresh job, so
    /// sleeping cannot bank deadline credit.
    pub open spec fn spec_dl_wake_refresh(t: Task, now: u64) -> Task {
        if t.policy.spec_class() == SchedClass::DeadlineClass && t.dl.runtime > 0 && (now
            >= t.dl_deadline || (t.dl_budget > 0 && t.dl_deadline > now + t.dl_budget * t.dl.period
            / (t.dl.runtime as int))) {
            Task {
                dl_release: now,
                dl_deadline: spec_sat_add_u64(now, t.dl.deadline),
                dl_budget: t.dl.runtime,
                ..t
            }
        } else {
            t
        }
    }

    /// Whether a freshly woken task asks its CPU to reschedule at once:
    /// never without preemption or for a batch-variant task; otherwise
    /// when the CPU is idle, when the woken task's class outranks the
    /// current task's, or when it beats the current task inside the same
    /// class (earlier deadline, higher real-time priority, or virtual
    /// runtime below the current one by more than the wake-up
    /// granularity).
    pub open spec fn spec_wake_preempts(v: SchedView, woken: Task, target: int) -> bool {
        if !v.config.preemption_enabled || woken.policy.spec_is_batch_variant() {
            false
        } else {
            match v.cpus[target].current {
                Option::None => true,
                Option::Some(p) => {
                    let cur = v.tasks[p as int];
                    let wr = woken.policy.spec_class().spec_rank();
                    let cr = cur.policy.spec_class().spec_rank();
                    if wr > cr {
                        true
                    } else if wr < cr {
                        false
                    } else if woken.policy.spec_class() == SchedClass::DeadlineClass {
                        woken.dl_deadline < cur.dl_deadline
                    } else if woken.policy.spec_class() == SchedClass::RtClass {
                        woken.rt_priority < cur.rt_priority
                    } else if woken.policy.spec_class() == SchedClass::FairClass {
                        woken.vruntime + Self::spec_wakeup_granularity(v.config) < cur.vruntime
                    } else {
                        false
                    }
                },
            }
        }
    }

    /// The CPU a waking task lands on: fair tasks go to the least-loaded
    /// CPU their mask allows (ties toward the previous CPU, then the
    /// lower id); every other class wakes on its previous CPU.
    pub open spec fn spec_wake_cpu(v: SchedView, t: Task) -> int {
        if t.policy.spec_class() == SchedClass::FairClass {
            spec_select_cpu(v.tasks, t.affinity, t.cpu as int, v.cpus.len() as int)
        } else {
            t.cpu as int
        }
    }

    /// The scheduler after a wake-up.  Waking a task that is already
    /// runnable, running, stopped or dead changes nothing, so two
    /// wake-ups of the same task are one: the task is enqueued at most
    /// once.  A created or blocked task becomes `Runnable` on its wake-up
    /// CPU with a fresh enqueue stamp; a previously blocked fair task's
    /// virtual runtime is clamped up to the CPU's watermark less half the
    /// scheduling latency, so it gets a small credit but cannot starve
    /// incumbents.
    pub open spec fn spec_wake_post(v: SchedView, tid: int) -> SchedView {
        let t = v.tasks[tid];
        if t.state != TaskState::Created && t.state != TaskState::Blocked {
            v
        } else {
            let target = Self::spec_wake_cpu(v, t);
            let t1 = Self::spec_dl_wake_refresh(t, v.now);
            let floor = spec_sat_sub(
                v.cpus[target].min_vruntime,
                (v.config.spec_timeslice_ns() / 2) as u64,
            );
            let clamped: u64 = if t1.policy.spec_class() == SchedClass::FairClass && t1.vruntime
                < floor {
                floor
            } else {
                t1.vruntime
            };
            let slice: u64 = if t1.policy == SchedPolicy::RoundRobin && t1.timeslice_left == 0 {
                v.config.spec_timeslice_ns()
            } else {
                t1.timeslice_left
            };
            let t2 = Task {
                state: TaskState::Runnable,
                cpu: target as usize,
                wake_time: v.now,
                vruntime: clamped,
                enqueue_seq: v.next_seq,
                timeslice_left: slice,
                ..t1
            };
            let preempt = Self::spec_wake_preempts(v, t2, target);
            SchedView {
                tasks: v.tasks.update(tid, t2),
                cpus: if preempt {
                    v.cpus.update(
                        target,
                        CpuRunState { resched_needed: true, ..v.cpus[target] },
                    )
                } else {
                    v.cpus
                },
                next_seq: spec_sat_add(v.next_seq, 1),
                ..v
            }
        }
    }

    /// Wake a task: enqueue it on its wake-up CPU and, where the wake
    /// outranks the CPU's current task, flag a reschedule there.  Waking
    /// an already-woken task changes nothing.
    #[verifier::rlimit(100)]
    pub fn wake_up_task(&mut self, tid: usize) -> (r: Result<(), SchedError>)
        requires
            old(self).inv(),
        ensures
            final(self).inv(),
            final(self).psi == old(self).psi,
            !old(self)@.spec_is_running() ==> r == Result::<(), SchedError>::Err(
                SchedError::NotRunning,
            ) && final(self)@ == old(self)@,
            old(self)@.spec_is_running() && tid >= old(self)@.tasks.len() ==> r == Result::<
                (),
                SchedError,
            >::Err(SchedError::TaskNotFound) && final(self)@ == old(self)@,
            old(self)@.spec_is_running() && tid < old(self)@.tasks.len() ==> r is Ok
                && final(self)@ == Self::spec_wake_post(old(self)@, tid as int),
    {
        if !self.is_running() {
            return Err(SchedError::NotRunning);
        }
        if tid >= self.tasks.len() {
            return Err(SchedError::TaskNotFound);
        }
        let t = self.tasks[tid];
        if !(matches!(t.state, TaskState::Created) || matches!(t.state, TaskState::Blocked)) {
            return Ok(());
        }
        let ncpus = self.cpus.len();
        let target: usize = if matches!(t.policy.class(), SchedClass::FairClass) {
            select_cpu(&self.tasks, t.affinity, t.cpu, ncpus)
        } else {
            t.cpu
        };
        // Deadline wake-up refresh (constant-bandwidth rule).
        let t1: Task = if matches!(t.policy.class(), SchedClass::DeadlineClass) && t.dl.runtime
            > 0 {
            proof {
                assert((t.dl_budget as int) * (t.dl.period as int) < 0x1_0000_0000_0000_0000_0000_0000_0000_0000)
                    by (nonlinear_arith)
                    requires t.dl_budget <= u64::MAX, t.dl.period <= u64::MAX;
            }
            let horizon: u128 = (t.dl_budget as u128) * (t.dl.period as u128) / (
            t.dl.runtime as u128);
            let banked = t.dl_budget > 0 && horizon <= u64::MAX as u128 && (t.dl_deadline as u128)
                > (now_add(self.now, horizon as u64) as u128);
            if self.now >= t.dl_deadline || banked {
                Task {
                    dl_release: self.now,
                    dl_deadline: sat_add(self.now, t.dl.deadline),
                    dl_budget: t.dl.runtime,
                    ..t
                }
            } else {
                t
            }
        } else {
            t
        };
        proof {
            let tg = Self::spec_dl_wake_refresh(old(self)@.tasks[tid as int], self.now);
            assert(t1 == tg);
        }
        let floor = sat_sub(self.cpus[target].min_vruntime, self.config.timeslice_ns() / 2);
        let clamped: u64 = if matches!(t1.policy.class(), SchedClass::FairClass) && t1.vruntime
            < floor {
            floor
        } else {
            t1.vruntime
        };
        let slice: u64 = if matches!(t1.policy, SchedPolicy::RoundRobin) && t1.timeslice_left
            == 0 {
            self.config.timeslice_ns()
        } else {
            t1.timeslice_left
        };
        let t2 = Task {
            state: TaskState::Runnable,
            cpu: target,
            wake_time: self.now,
            vruntime: clamped,
            enqueue_seq: self.next_seq,
            timeslice_left: slice,
            ..t1
        };
        // Wake-up preemption check against the target CPU's current task.
        let preempt: bool = if !self.config.preemption_enabled || t2.policy.is_batch_variant() {
            false
        } else {
            match self.cpus[target].current {
                None => true,
                Some(p) => {
                    let cur = self.tasks[p];
                    let wr = t2.policy.class().rank();
                    let cr = cur.policy.class().rank();
                    if wr > cr {
                        true
                    } else if wr < cr {
                        false
                    } else if matches!(t2.policy.class(), SchedClass::DeadlineClass) {
                        t2.dl_deadline < cur.dl_deadline
                    } else if matches!(t2.policy.class(), SchedClass::RtClass) {
                        t2.rt_priority < cur.rt_priority
                    } else if matches!(t2.policy.class(), SchedClass::FairClass) {
                        let gran = self.config.timeslice_ns() / 10;
                        (t2.vruntime as u128) + (gran as u128) < (cur.vruntime as u128)
                    } else {
                        false
                    }
                },
            }
        };
        proof {
            if matches!(t.policy.spec_class(), SchedClass::FairClass) {
                crate::pick::lemma_best_cpu_allowed(
                    old(self)@.tasks,
                    t.affinity,
                    t.cpu as int,
                    ncpus as int,
                );
                assert(spec_affinity_allows(t2.affinity, target));
            }
            assert(preempt == Self::spec_wake_preempts(old(self)@, t2, target as int));
        }
        self.tasks.set(tid, t2);
        if preempt {
            let cs = self.cpus[target];
            self.cpus.set(target, CpuRunState { resched_needed: true, ..cs });
        }
        self.next_seq = sat_add(self.next_seq, 1);
        proof {
            let post = Self::spec_wake_post(old(self)@, tid as int);
            assert(self@.tasks =~= post.tasks);
            assert(self@.cpus =~= post.cpus);
            assert(self@ =~= post);
        }
        Ok(())
    }

    /// The scheduler after an orderly drain: every CPU's `current` slot
    /// empties, every running task returns to its runqueue, pending
    /// reschedules and the emergency flag clear, and the scheduler is
    /// `Stopped`.
    pub open spec fn spec_drain(v: SchedView) -> SchedView {
        SchedView {
            state: SchedulerState::Stopped,
            tasks: Seq::new(
                v.tasks.len(),
                |i: int|
                    if v.tasks[i].state == TaskState::Running {
                        Task { state: TaskState::Runnable, ..v.tasks[i] }
                    } else {
                        v.tasks[i]
                    },
            ),
            cpus: Seq::new(
                v.cpus.len(),
                |c: int|
                    CpuRunState {
                        current: Option::None,
                        resched_needed: false,
                        ..v.cpus[c]
                    },
            ),
            emergency: false,
            ..v
        }
    }

    /// Drain every CPU to idle and stop the scheduler.
    fn drain_to_stopped(&mut self)
        requires
            old(self).inv(),
            old(self)@.state != SchedulerState::Uninitialized,
        ensures
            final(self).inv(),
            final(self).psi == old(self).psi,
            final(self)@ == Self::spec_drain(old(self)@),
    {
        let ghost target = Self::spec_drain(old(self)@);
        let n = self.tasks.len();
        let mut i: usize = 0;
        while i < n
            invariant
                0 <= i <= n,
                n == self.tasks@.len(),
                self.tasks@.len() == old(self)@.tasks.len(),
                forall|j: int|
                    i <= j < n ==> self.tasks@[j] == old(self)@.tasks[j],
                forall|j: int|
                    0 <= j < i ==> self.tasks@[j] == Self::spec_drain(old(self)@).tasks[j],
                self.cpus@ == old(self)@.cpus,
                self.state == old(self)@.state,
                self.config == old(self)@.config,
                self.stats == old(self)@.stats,
                self.now == old(self)@.now,
                self.next_seq == old(self)@.next_seq,
                self.emergency == old(self)@.emergency,
                self.last_balance_tick == old(self)@.last_balance_tick,
                self.tick_counter == old(self)@.tick_counter,
                self.psi == old(self).psi,
            decreases n - i,
        {
            let t = self.tasks[i];
            if matches!(t.state, TaskState::Running) {
                self.tasks.set(i, Task { state: TaskState::Runnable, ..t });
            }
            i = i + 1;
        }
        let m = self.cpus.len();
        let mut c: usize = 0;
        while c < m
            invariant
                0 <= c <= m,
                m == self.cpus@.len(),
                self.cpus@.len() == old(self)@.cpus.len(),
                forall|k: int|
                    c <= k < m ==> self.cpus@[k] == old(self)@.cpus[k],
                forall|k: int|
                    0 <= k < c ==> self.cpus@[k] == Self::spec_drain(old(self)@).cpus[k],
                self.tasks@ == Self::spec_drain(old(self)@).tasks,
                self.state == old(self)@.state,
                self.config == old(self)@.config,
                self.stats == old(self)@.stats,
                self.now == old(self)@.now,
                self.next_seq == old(self)@.next_seq,
                self.emergency == old(self)@.emergency,
                self.last_balance_tick == old(self)@.last_balance_tick,
                self.tick_counter == old(self)@.tick_counter,
                self.psi == old(self).psi,
            decreases m - c,
        {
            let cs = self.cpus[c];
            self.cpus.set(c, CpuRunState { current: None, resched_needed: false, ..cs });
            c = c + 1;
        }
        self.state = SchedulerState::Stopped;
        self.emergency = false;
        proof {
            assert(self@.tasks =~= target.tasks);
            assert(self@.cpus =~= target.cpus);
            assert(self@ =~= target);
        }
    }

    /// The winning candidate on a CPU and its class, by the fixed
    /// dispatch order stop, deadline, real-time, fair, idle.  While the
    /// CPU's bandwidth window is throttled the deadline and real-time
    /// classes yield to fair.
    pub open spec fn spec_candidate(v: SchedView, cpu: int) -> Option<(int, SchedClass)> {
        let throttled = v.cpus[cpu].rt_throttled;
        match crate::pick::spec_pick(v.tasks, cpu, SchedClass::StopClass) {
            Option::Some(i) => Option::Some((i, SchedClass::StopClass)),
            Option::None => match (if throttled {
                Option::None
            } else {
                crate::pick::spec_pick(v.tasks, cpu, SchedClass::DeadlineClass)
            }) {
                Option::Some(i) => Option::Some((i, SchedClass::DeadlineClass)),
                Option::None => match (if throttled {
                    Option::None
                } else {
                    crate::pick::spec_pick(v.tasks, cpu, SchedClass::RtClass)
                }) {
                    Option::Some(i) => Option::Some((i, SchedClass::RtClass)),
                    Option::None => match crate::pick::spec_pick(
                        v.tasks,
                        cpu,
                        SchedClass::FairClass,
                    ) {
                        Option::Some(i) => Option::Some((i, SchedClass::FairClass)),
                        Option::None => match crate::pick::spec_pick(
                            v.tasks,
                            cpu,
                            SchedClass::IdleClass,
                        ) {
                            Option::Some(i) => Option::Some((i, SchedClass::IdleClass)),
                            Option::None => Option::None,
                        },
                    },
                },
            },
        }
    }

    /// The fair slice of the current task: the scheduling latency scaled
    /// by the task's share of the queued fair weight, floored at an
    /// eighth of the latency; a batch-variant task gets twice the slice.
    pub open spec fn spec_fair_slice(v: SchedView, cpu: int, cur: Task) -> int {
        let latency = v.config.spec_timeslice_ns() as int;
        let sumw = crate::pick::spec_fair_weight_sum(v.tasks, cpu) + cur.weight;
        let base = latency * cur.weight / sumw;
        let floor = latency / 8;
        let slice = if base < floor {
            floor
        } else {
            base
        };
        if cur.policy.spec_is_batch_variant() {
            2 * slice
        } else {
            slice
        }
    }

    /// Whether the winning candidate preempts the CPU's current task:
    /// a throttled bandwidth window forces a real-time or deadline
    /// current task to yield; otherwise never with preemption disabled; a
    /// higher class always preempts a
    /// lower one; within a class, a stop or idle task never preempts, a
    /// deadline task preempts a later deadline, a real-time task a lower
    /// priority or a round-robin peer whose slice is spent, and a fair
    /// task a current whose virtual runtime leads by more than the
    /// wake-up granularity — or leads at all once the current task's
    /// slice is spent.
    pub open spec fn spec_should_preempt(v: SchedView, cpu: int, cur: Task, cand: Task, class: SchedClass) -> bool {
        if v.cpus[cpu].rt_throttled && (cur.policy.spec_class() == SchedClass::RtClass
            || cur.policy.spec_class() == SchedClass::DeadlineClass) {
            true
        } else if !v.config.preemption_enabled {
            false
        } else {
            let cr = cur.policy.spec_class().spec_rank();
            let kr = class.spec_rank();
            if kr > cr {
                true
            } else if kr < cr {
                false
            } else {
                match class {
                    SchedClass::StopClass => false,
                    SchedClass::DeadlineClass => cand.dl_deadline < cur.dl_deadline,
                    SchedClass::RtClass => cand.rt_priority < cur.rt_priority || (cand.rt_priority
                        == cur.rt_priority && cur.policy == SchedPolicy::RoundRobin
                        && cur.timeslice_left == 0),
                    SchedClass::FairClass => cand.vruntime + Self::spec_wakeup_granularity(v.config)
                        < cur.vruntime || (cand.vruntime < cur.vruntime && cur.sum_exec
                        - cur.exec_start >= Self::spec_fair_slice(v, cpu, cur)),
                    SchedClass::IdleClass => false,
                }
            }
        }
    }

    /// The scheduling decision on a CPU: the winning candidate switches
    /// in when the CPU is idle or the candidate preempts the current
    /// task; with no candidate the current task keeps the CPU, or the
    /// CPU goes idle.
    pub open spec fn spec_decision(v: SchedView, cpu: int) -> crate::policy::ScheduleResult {
        match Self::spec_candidate(v, cpu) {
            Option::Some((i, class)) => match v.cpus[cpu].current {
                Option::Some(p) => if Self::spec_should_preempt(
                    v,
                    cpu,
                    v.tasks[p as int],
                    v.tasks[i],
                    class,
                ) {
                    crate::policy::ScheduleResult::SwitchTo(i as usize)
                } else {
                    crate::policy::ScheduleResult::KeepCurrent
                },
                Option::None => crate::policy::ScheduleResult::SwitchTo(i as usize),
            },
            Option::None => match v.cpus[cpu].current {
                Option::Some(_) => crate::policy::ScheduleResult::KeepCurrent,
                Option::None => crate::policy::ScheduleResult::GoIdle,
            },
        }
    }

    /// The scheduler after one scheduling decision is carried out.
    /// Keeping the current task or going idle only clears the reschedule
    /// flag.  A switch returns the previous task to its runqueue at the
    /// tail of its class's order (a spent round-robin slice is refilled),
    /// marks the picked task `Running`, advances the fair watermark to
    /// the picked virtual runtime, clears the reschedule flag and counts
    /// the context switch (and the preemption, when a task was displaced).
    pub open spec fn spec_apply_decision(v: SchedView, cpu: int, d: crate::policy::ScheduleResult) -> SchedView {
        match d {
            crate::policy::ScheduleResult::SwitchTo(i) => {
                let prev = v.cpus[cpu].current;
                let tasks1 = match prev {
                    Option::Some(p) => v.tasks.update(
                        p as int,
                        Task {
                            state: TaskState::Runnable,
                            enqueue_seq: v.next_seq,
                            timeslice_left: if v.tasks[p as int].policy == SchedPolicy::RoundRobin
                                && v.tasks[p as int].timeslice_left == 0 {
                                v.config.spec_timeslice_ns()
                            } else {
                                v.tasks[p as int].timeslice_left
                            },
                            ..v.tasks[p as int]
                        },
                    ),
                    Option::None => v.tasks,
                };
                let t = tasks1[i as int];
                let t2 = Task {
                    state: TaskState::Running,
                    exec_start: t.sum_exec,
                    last_ran: v.now,
                    timeslice_left: if t.policy == SchedPolicy::RoundRobin && t.timeslice_left
                        == 0 {
                        v.config.spec_timeslice_ns()
                    } else {
                        t.timeslice_left
                    },
                    ..t
                };
                let new_min: u64 = if t.policy.spec_class() == SchedClass::FairClass && t.vruntime
                    > v.cpus[cpu].min_vruntime {
                    t.vruntime
                } else {
                    v.cpus[cpu].min_vruntime
                };
                SchedView {
                    tasks: tasks1.update(i as int, t2),
                    cpus: v.cpus.update(
                        cpu,
                        CpuRunState {
                            current: Option::Some(i),
                            resched_needed: false,
                            min_vruntime: new_min,
                            ..v.cpus[cpu]
                        },
                    ),
                    next_seq: if prev is Some {
                        spec_sat_add(v.next_seq, 1)
                    } else {
                        v.next_seq
                    },
                    stats: SchedulerStats {
                        context_switches: spec_sat_add(v.stats.context_switches, 1),
                        preemptions: if prev is Some {
                            spec_sat_add(v.stats.preemptions, 1)
                        } else {
                            v.stats.preemptions
                        },
                        ..v.stats
                    },
                    ..v
                }
            },
            _ => SchedView {
                cpus: v.cpus.update(
                    cpu,
                    CpuRunState { resched_needed: false, ..v.cpus[cpu] },
                ),
                ..v
            },
        }
    }

    /// Take one scheduling decision on a CPU and carry it out.  A pending
    /// emergency stop drains every CPU and stops the scheduler instead.
    /// The fair watermark of every CPU never decreases.
    #[verifier::rlimit(100)]
    pub fn schedule(&mut self, cpu: usize) -> (r: Result<crate::policy::ScheduleResult, SchedError>)
        requires
            old(self).inv(),
        ensures
            final(self).inv(),
            final(self).psi == old(self).psi,
            !old(self)@.spec_is_running() ==> r == Result::<
                crate::policy::ScheduleResult,
                SchedError,
            >::Err(SchedError::NotRunning) && final(self)@ == old(self)@,
            old(self)@.spec_is_running() && old(self)@.emergency ==> r == Result::<
                crate::policy::ScheduleResult,
                SchedError,
            >::Ok(crate::policy::ScheduleResult::GoIdle) && final(self)@ == Self::spec_drain(
                old(self)@,
            ),
            old(self)@.spec_is_running() && !old(self)@.emergency && cpu >= old(self)@.cpus.len()
                ==> r == Result::<crate::policy::ScheduleResult, SchedError>::Err(
                SchedError::InvalidParameter,
            ) && final(self)@ == old(self)@,
            old(self)@.spec_is_running() && !old(self)@.emergency && cpu < old(self)@.cpus.len()
                ==> r == Result::<crate::policy::ScheduleResult, SchedError>::Ok(
                Self::spec_decision(old(self)@, cpu as int),
            ) && final(self)@ == Self::spec_apply_decision(
                old(self)@,
                cpu as int,
                Self::spec_decision(old(self)@, cpu as int),
            ),
            forall|c: int|
                0 <= c < old(self)@.cpus.len() && c < final(self)@.cpus.len() ==> (
                #[trigger] final(self)@.cpus[c]).min_vruntime >= old(self)@.cpus[c].min_vruntime,
    {
        if !self.is_running() {
            return Err(SchedError::NotRunning);
        }
        if self.emergency {
            self.drain_to_stopped();
            return Ok(crate::policy::ScheduleResult::GoIdle);
        }
        if cpu >= self.cpus.len() {
            return Err(SchedError::InvalidParameter);
        }
        let throttled = self.cpus[cpu].rt_throttled;
        let cand: Option<(usize, SchedClass)> = if let Some(i) = crate::pick::pick_class(
            &self.tasks,
            cpu,
            SchedClass::StopClass,
        ) {
            Some((i, SchedClass::StopClass))
        } else if !throttled {
            if let Some(i) = crate::pick::pick_class(&self.tasks, cpu, SchedClass::DeadlineClass) {
                Some((i, SchedClass::DeadlineClass))
            } else if let Some(i) = crate::pick::pick_class(&self.tasks, cpu, SchedClass::RtClass) {
                Some((i, SchedClass::RtClass))
            } else if let Some(i) = crate::pick::pick_class(
                &self.tasks,
                cpu,
                SchedClass::FairClass,
            ) {
                Some((i, SchedClass::FairClass))
            } else if let Some(i) = crate::pick::pick_class(
                &self.tasks,
                cpu,
                SchedClass::IdleClass,
            ) {
                Some((i, SchedClass::IdleClass))
            } else {
                None
            }
        } else if let Some(i) = crate::pick::pick_class(&self.tasks, cpu, SchedClass::FairClass) {
            Some((i, SchedClass::FairClass))
        } else if let Some(i) = crate::pick::pick_class(&self.tasks, cpu, SchedClass::IdleClass) {
            Some((i, SchedClass::IdleClass))
        } else {
            None
        };
        let decision: crate::policy::ScheduleResult = match cand {
            Some((i, class)) => match self.cpus[cpu].current {
                Some(p) => {
                    if self.should_preempt(cpu, p, i, class) {
                        crate::policy::ScheduleResult::SwitchTo(i)
                    } else {
                        crate::policy::ScheduleResult::KeepCurrent
                    }
                },
                None => crate::policy::ScheduleResult::SwitchTo(i),
            },
            None => match self.cpus[cpu].current {
                Some(_) => crate::policy::ScheduleResult::KeepCurrent,
                None => crate::policy::ScheduleResult::GoIdle,
            },
        };
        proof {
            assert(decision == Self::spec_decision(old(self)@, cpu as int));
            let ts = old(self)@.tasks;
            let n = ts.len() as int;
            crate::pick::lemma_pick_is_candidate(ts, cpu as int, SchedClass::StopClass, n);
            crate::pick::lemma_pick_is_candidate(ts, cpu as int, SchedClass::DeadlineClass, n);
            crate::pick::lemma_pick_is_candidate(ts, cpu as int, SchedClass::RtClass, n);
            crate::pick::lemma_pick_is_candidate(ts, cpu as int, SchedClass::FairClass, n);
            crate::pick::lemma_pick_is_candidate(ts, cpu as int, SchedClass::IdleClass, n);
        }
        match decision {
            crate::policy::ScheduleResult::SwitchTo(i) => {
                match self.cpus[cpu].current {
                    Some(p) => {
                        let prev_task = self.tasks[p];
                        let prev2 = Task {
                            state: TaskState::Runnable,
                            enqueue_seq: self.next_seq,
                            timeslice_left: if matches!(prev_task.policy, SchedPolicy::RoundRobin)
                                && prev_task.timeslice_left == 0 {
                                self.config.timeslice_ns()
                            } else {
                                prev_task.timeslice_left
                            },
                            ..prev_task
                        };
                        self.tasks.set(p, prev2);
                        self.next_seq = sat_add(self.next_seq, 1);
                        self.stats.preemptions = sat_add(self.stats.preemptions, 1);
                    },
                    None => {},
                }
                let t = self.tasks[i];
                let t2 = Task {
                    state: TaskState::Running,
                    exec_start: t.sum_exec,
                    last_ran: self.now,
                    timeslice_left: if matches!(t.policy, SchedPolicy::RoundRobin)
                        && t.timeslice_left == 0 {
                        self.config.timeslice_ns()
                    } else {
                        t.timeslice_left
                    },
                    ..t
                };
                self.tasks.set(i, t2);
                let cs = self.cpus[cpu];
                let new_min: u64 = if matches!(t.policy.class(), SchedClass::FairClass)
                    && t.vruntime > cs.min_vruntime {
                    t.vruntime
                } else {
                    cs.min_vruntime
                };
                self.cpus.set(
                    cpu,
                    CpuRunState {
                        current: Some(i),
                        resched_needed: false,
                        min_vruntime: new_min,
                        ..cs
                    },
                );
                self.stats.context_switches = sat_add(self.stats.context_switches, 1);
                proof {
                    let post = Self::spec_apply_decision(old(self)@, cpu as int, decision);
                    assert(self@.tasks =~= post.tasks);
                    assert(self@.cpus =~= post.cpus);
                    assert(self@ =~= post);
                }
            },
            _ => {
                let cs = self.cpus[cpu];
                self.cpus.set(cpu, CpuRunState { resched_needed: false, ..cs });
                proof {
                    let post = Self::spec_apply_decision(old(self)@, cpu as int, decision);
                    assert(self@.cpus =~= post.cpus);
                    assert(self@ =~= post);
                }
            },
        }
        Ok(decision)
    }

    /// Whether the candidate `i` of `class` preempts the current task `p`
    /// on `cpu`; executable form of [`CoreScheduler::spec_should_preempt`].
    fn should_preempt(&self, cpu: usize, p: usize, i: usize, class: SchedClass) -> (r: bool)
        requires
            self.inv(),
            cpu < self@.cpus.len(),
            p < self@.tasks.len(),
            i < self@.tasks.len(),
        ensures
            r == Self::spec_should_preempt(
                self@,
                cpu as int,
                self@.tasks[p as int],
                self@.tasks[i as int],
                class,
            ),
    {
        let cur = self.tasks[p];
        let cand = self.tasks[i];
        if self.cpus[cpu].rt_throttled && (matches!(cur.policy.class(), SchedClass::RtClass)
            || matches!(cur.policy.class(), SchedClass::DeadlineClass)) {
            return true;
        }
        if !self.config.preemption_enabled {
            return false;
        }
        let cr = cur.policy.class().rank();
        let kr = class.rank();
        if kr > cr {
            return true;
        }
        if kr < cr {
            return false;
        }
        match class {
            SchedClass::StopClass => false,
            SchedClass::DeadlineClass => cand.dl_deadline < cur.dl_deadline,
            SchedClass::RtClass => cand.rt_priority < cur.rt_priority || (cand.rt_priority
                == cur.rt_priority && matches!(cur.policy, SchedPolicy::RoundRobin)
                && cur.timeslice_left == 0),
            SchedClass::FairClass => {
                let gran = self.config.timeslice_ns() / 10;
                if (cand.vruntime as u128) + (gran as u128) < (cur.vruntime as u128) {
                    true
                } else if cand.vruntime >= cur.vruntime {
                    false
                } else {
                    let latency = self.config.timeslice_ns();
                    let sumw = crate::pick::fair_weight_sum(&self.tasks, cpu) + cur.weight;
                    proof {
                        crate::pick::lemma_fair_weight_sum_bounds(self@.tasks, cpu as int);
                        assert((latency as int) * (cur.weight as int) <= 10_000_000_000 * 88761)
                            by (nonlinear_arith)
                            requires latency <= 10_000_000_000, cur.weight <= 88761;
                    }
                    let base = (latency as u128) * (cur.weight as u128) / (sumw as u128);
                    proof {
                        assert(base as int <= (latency as int) * (cur.weight as int))
                            by (nonlinear_arith)
                            requires
                                sumw >= 1,
                                base as int == (latency as int) * (cur.weight as int) / (
                                sumw as int),
                        ;
                    }
                    let floor = latency / 8;
                    let slice: u128 = if base < floor as u128 {
                        floor as u128
                    } else {
                        base
                    };
                    let slice2: u128 = if cur.policy.is_batch_variant() {
                        2 * slice
                    } else {
                        slice
                    };
                    let used = sat_sub(cur.sum_exec, cur.exec_start);
                    proof {
                        assert(cur.sum_exec >= cur.exec_start ==> used == cur.sum_exec
                            - cur.exec_start);
                    }
                    (used as u128) >= slice2 && cur.sum_exec >= cur.exec_start
                }
            },
            SchedClass::IdleClass => false,
        }
    }

    /// One task after being charged `delta` nanoseconds of CPU time: the
    /// execution sum always grows; a fair task is charged weighted
    /// virtual runtime; a round-robin task consumes its slice; a deadline
    /// task consumes budget, and an exhausted budget is refilled with the
    /// deadline and release postponed by one period (the constant
    /// bandwidth server defers the job rather than killing it).
    pub open spec fn spec_charge_task(t: Task, delta: u64, config: SchedulerConfig) -> Task {
        let base = Task { sum_exec: spec_sat_add(t.sum_exec, delta), ..t };
        if t.policy.spec_class() == SchedClass::FairClass {
            Task {
                vruntime: spec_sat_add(
                    t.vruntime,
                    crate::task::spec_vruntime_charge(delta, t.weight),
                ),
                ..base
            }
        } else if t.policy == SchedPolicy::RoundRobin {
            Task { timeslice_left: spec_sat_sub(t.timeslice_left, delta), ..base }
        } else if t.policy.spec_class() == SchedClass::DeadlineClass {
            if t.dl_budget > 0 && spec_sat_sub(t.dl_budget, delta) == 0 {
                Task {
                    dl_budget: t.dl.runtime,
                    dl_deadline: spec_sat_add(t.dl_deadline, t.dl.period),
                    dl_release: spec_sat_add(t.dl_release, t.dl.period),
                    ..base
                }
            } else {
                Task { dl_budget: spec_sat_sub(t.dl_budget, delta), ..base }
            }
        } else {
            base
        }
    }

    /// Whether this charge exhausts a deadline task's budget: the job
    /// missed its budget before completing.
    pub open spec fn spec_dl_exhausts(t: Task, delta: u64) -> bool {
        t.policy.spec_class() == SchedClass::DeadlineClass && t.dl_budget > 0 && spec_sat_sub(
            t.dl_budget,
            delta,
        ) == 0
    }

    /// Whether this charge spends a round-robin task's slice.
    pub open spec fn spec_rr_expires(t: Task, delta: u64) -> bool {
        t.policy == SchedPolicy::RoundRobin && t.timeslice_left > 0 && spec_sat_sub(
            t.timeslice_left,
            delta,
        ) == 0
    }

    /// The task registry with the load tracking of every task attached
    /// to `cpu` (runnable or running there) brought up to time `now2`.
    pub open spec fn spec_tick_loads(tasks: Seq<Task>, cpu: int, now2: u64) -> Seq<Task> {
        Seq::new(
            tasks.len(),
            |i: int|
                if crate::pelt::spec_attached(tasks[i], cpu) {
                    crate::pelt::spec_update_load(tasks[i], now2)
                } else {
                    tasks[i]
                },
        )
    }

    /// The scheduler after one tick on a CPU at time `now`.  The clock
    /// never goes backwards.  A bandwidth window older than one second is
    /// reopened.  The CPU's current task is charged the time since the
    /// CPU's last tick and its load tracking is brought up to date; time
    /// spent in the real-time or deadline class is charged against the
    /// bandwidth window, capped at the budget plus one default slice, and
    /// crossing the budget throttles the window.  A spent slice, an
    /// exhausted deadline budget or a fresh throttle flags a reschedule.
    /// An idle CPU accrues idle time instead.
    pub open spec fn spec_tick_post(v: SchedView, cpu: int, now: u64) -> SchedView {
        let now2: u64 = if now > v.now {
            now
        } else {
            v.now
        };
        let cs = v.cpus[cpu];
        let delta = spec_sat_sub(now2, cs.last_tick);
        let cs1 = if spec_sat_sub(now2, cs.window_start) >= RT_WINDOW_NS {
            CpuRunState { window_start: now2, rt_window_used: 0u64, rt_throttled: false, ..cs }
        } else {
            cs
        };
        let tasks1 = Self::spec_tick_loads(v.tasks, cpu, now2);
        match cs.current {
            Option::None => SchedView {
                tasks: tasks1,
                cpus: v.cpus.update(
                    cpu,
                    CpuRunState {
                        last_tick: now2,
                        tick_count: spec_sat_add(cs1.tick_count, 1),
                        ..cs1
                    },
                ),
                now: now2,
                tick_counter: spec_sat_add(v.tick_counter, 1),
                stats: SchedulerStats {
                    scheduler_ticks: spec_sat_add(v.stats.scheduler_ticks, 1),
                    cpu_idle_time: spec_sat_add(v.stats.cpu_idle_time, delta / 1000),
                    ..v.stats
                },
                ..v
            },
            Option::Some(p) => {
                let t0 = v.tasks[p as int];
                let t2 = Self::spec_charge_task(tasks1[p as int], delta, v.config);
                let is_rtdl = t0.policy.spec_class() == SchedClass::RtClass || t0.policy.spec_class()
                    == SchedClass::DeadlineClass;
                let budget = spec_rt_budget_ns(v.config);
                let cap = (budget + v.config.spec_timeslice_ns()) as u64;
                let used2: u64 = if is_rtdl {
                    if spec_sat_add(cs1.rt_window_used, delta) > cap {
                        cap
                    } else {
                        spec_sat_add(cs1.rt_window_used, delta)
                    }
                } else {
                    cs1.rt_window_used
                };
                let fresh_throttle = is_rtdl && !cs1.rt_throttled && used2 >= budget;
                let throttled2 = cs1.rt_throttled || (is_rtdl && used2 >= budget);
                let rr_exp = Self::spec_rr_expires(t0, delta);
                let dl_exh = Self::spec_dl_exhausts(t0, delta);
                let cs2 = CpuRunState {
                    last_tick: now2,
                    tick_count: spec_sat_add(cs1.tick_count, 1),
                    rt_window_used: used2,
                    rt_throttled: throttled2,
                    resched_needed: cs1.resched_needed || rr_exp || dl_exh || fresh_throttle,
                    ..cs1
                };
                SchedView {
                    tasks: tasks1.update(p as int, t2),
                    cpus: v.cpus.update(cpu, cs2),
                    now: now2,
                    tick_counter: spec_sat_add(v.tick_counter, 1),
                    stats: SchedulerStats {
                        scheduler_ticks: spec_sat_add(v.stats.scheduler_ticks, 1),
                        deadline_misses: if dl_exh {
                            spec_sat_add(v.stats.deadline_misses, 1)
                        } else {
                            v.stats.deadline_misses
                        },
                        rt_throttled: if fresh_throttle {
                            spec_sat_add(v.stats.rt_throttled, 1)
                        } else {
                            v.stats.rt_throttled
                        },
                        ..v.stats
                    },
                    ..v
                }
            },
        }
    }

    /// Bring the load tracking of every task attached to `cpu` up to
    /// time `now2`; nothing else changes.
    #[verifier::rlimit(100)]
    fn refresh_cpu_loads(&mut self, cpu: usize, now2: u64)
        requires
            old(self).inv(),
        ensures
            final(self).inv(),
            final(self).psi == old(self).psi,
            final(self)@ == (SchedView {
                tasks: Self::spec_tick_loads(old(self)@.tasks, cpu as int, now2),
                ..old(self)@
            }),
    {
        let ghost tasks1 = Self::spec_tick_loads(old(self)@.tasks, cpu as int, now2);
        let n = self.tasks.len();
        let mut i: usize = 0;
        while i < n
            invariant
                0 <= i <= n,
                n == self.tasks@.len(),
                self.tasks@.len() == old(self)@.tasks.len(),
                tasks1 == Self::spec_tick_loads(old(self)@.tasks, cpu as int, now2),
                tasks1.len() == old(self)@.tasks.len(),
                forall|j: int| 0 <= j < i ==> self.tasks@[j] == tasks1[j],
                forall|j: int| i <= j < n ==> self.tasks@[j] == old(self)@.tasks[j],
                forall|j: int|
                    0 <= j < n ==> (#[trigger] old(self)@.tasks[j]).load_avg <= 1024
                        && old(self)@.tasks[j].util_avg <= 1024,
                self.cpus@ == old(self)@.cpus,
                self.state == old(self)@.state,
                self.config == old(self)@.config,
                self.stats == old(self)@.stats,
                self.now == old(self)@.now,
                self.next_seq == old(self)@.next_seq,
                self.emergency == old(self)@.emergency,
                self.last_balance_tick == old(self)@.last_balance_tick,
                self.tick_counter == old(self)@.tick_counter,
                self.psi == old(self).psi,
            decreases n - i,
        {
            let t = self.tasks[i];
            if t.cpu == cpu && matches!(t.state, TaskState::Runnable | TaskState::Running) {
                let mut updated = t;
                crate::pelt::update_task_load(&mut updated, now2);
                self.tasks.set(i, updated);
            }
            i = i + 1;
        }
        proof {
            assert(self.tasks@ =~= tasks1);
            assert forall|k: int| 0 <= k < tasks1.len() implies (#[trigger] tasks1[k]).wf(
                old(self)@.cpus.len() as int,
            ) && tasks1[k].id == k && tasks1[k].state == old(self)@.tasks[k].state
                && tasks1[k].cpu == old(self)@.tasks[k].cpu by {
                let t0k = old(self)@.tasks[k];
                assert(t0k.wf(old(self)@.cpus.len() as int));
                if crate::pelt::spec_attached(t0k, cpu as int) {
                    crate::pelt::lemma_update_load_wf(t0k, now2);
                }
            }
            assert(self@ =~= (SchedView {
                tasks: Self::spec_tick_loads(old(self)@.tasks, cpu as int, now2),
                ..old(self)@
            }));
        }
    }

    /// Process one scheduler tick on a CPU at time `now`, accounting the
    /// elapsed time to the CPU's current task.
    #[verifier::rlimit(100)]
    #[verifier::spinoff_prover]
    pub fn tick(&mut self, cpu: usize, now: u64) -> (r: Result<(), SchedError>)
        requires
            old(self).inv(),
        ensures
            final(self).inv(),
            final(self).psi == old(self).psi,
            !old(self)@.spec_is_running() ==> r == Result::<(), SchedError>::Err(
                SchedError::NotRunning,
            ) && final(self)@ == old(self)@,
            old(self)@.spec_is_running() && cpu >= old(self)@.cpus.len() ==> r == Result::<
                (),
                SchedError,
            >::Err(SchedError::InvalidParameter) && final(self)@ == old(self)@,
            old(self)@.spec_is_running() && cpu < old(self)@.cpus.len() ==> r is Ok && final(self)@
                == Self::spec_tick_post(old(self)@, cpu as int, now),
            forall|c: int|
                0 <= c < old(self)@.cpus.len() && c < final(self)@.cpus.len() ==> (
                #[trigger] final(self)@.cpus[c]).min_vruntime >= old(self)@.cpus[c].min_vruntime,
    {
        if !self.is_running() {
            return Err(SchedError::NotRunning);
        }
        if cpu >= self.cpus.len() {
            return Err(SchedError::InvalidParameter);
        }
        let now2: u64 = if now > self.now {
            now
        } else {
            self.now
        };
        let cs = self.cpus[cpu];
        let delta = sat_sub(now2, cs.last_tick);
        let cs1: CpuRunState = if sat_sub(now2, cs.window_start) >= RT_WINDOW_NS {
            CpuRunState { window_start: now2, rt_window_used: 0, rt_throttled: false, ..cs }
        } else {
            cs
        };
        // Bring the load tracking of every task attached to this CPU up
        // to date.
        let ghost tasks1 = Self::spec_tick_loads(old(self)@.tasks, cpu as int, now2);
        self.refresh_cpu_loads(cpu, now2);
        match cs.current {
            None => {
                self.cpus.set(
                    cpu,
                    CpuRunState { last_tick: now2, tick_count: sat_add(cs1.tick_count, 1), ..cs1 },
                );
                self.now = now2;
                self.tick_counter = sat_add(self.tick_counter, 1);
                self.stats.scheduler_ticks = sat_add(self.stats.scheduler_ticks, 1);
                self.stats.cpu_idle_time = sat_add(self.stats.cpu_idle_time, delta / 1000);
                proof {
                    let post = Self::spec_tick_post(old(self)@, cpu as int, now);
                    assert(self@.cpus =~= post.cpus);
                    assert(self@ =~= post);
                }
                Ok(())
            },
            Some(p) => {
                let t = self.tasks[p];
                let ghost t0 = old(self)@.tasks[p as int];
                proof {
                    assert(t == tasks1[p as int]);
                    assert(t.policy == t0.policy && t.weight == t0.weight && t.timeslice_left
                        == t0.timeslice_left && t.dl_budget == t0.dl_budget && t.dl == t0.dl);
                }
                // Class-specific charge of the elapsed time.
                let base = Task { sum_exec: sat_add(t.sum_exec, delta), ..t };
                let t2: Task = if matches!(t.policy.class(), SchedClass::FairClass) {
                    Task {
                        vruntime: sat_add(
                            t.vruntime,
                            crate::task::vruntime_charge(delta, t.weight),
                        ),
                        ..base
                    }
                } else if matches!(t.policy, SchedPolicy::RoundRobin) {
                    Task { timeslice_left: sat_sub(t.timeslice_left, delta), ..base }
                } else if matches!(t.policy.class(), SchedClass::DeadlineClass) {
                    if t.dl_budget > 0 && sat_sub(t.dl_budget, delta) == 0 {
                        Task {
                            dl_budget: t.dl.runtime,
                            dl_deadline: sat_add(t.dl_deadline, t.dl.period),
                            dl_release: sat_add(t.dl_release, t.dl.period),
                            ..base
                        }
                    } else {
                        Task { dl_budget: sat_sub(t.dl_budget, delta), ..base }
                    }
                } else {
                    base
                };
                let is_rtdl = matches!(t.policy.class(), SchedClass::RtClass) || matches!(
                    t.policy.class(),
                    SchedClass::DeadlineClass,
                );
                let budget = (self.config.rt_bandwidth_percent as u64) * 10_000_000;
                let cap = budget + self.config.timeslice_ns();
                let used2: u64 = if is_rtdl {
                    if sat_add(cs1.rt_window_used, delta) > cap {
                        cap
                    } else {
                        sat_add(cs1.rt_window_used, delta)
                    }
                } else {
                    cs1.rt_window_used
                };
                let fresh_throttle = is_rtdl && !cs1.rt_throttled && used2 >= budget;
                let throttled2 = cs1.rt_throttled || (is_rtdl && used2 >= budget);
                let rr_exp = matches!(t.policy, SchedPolicy::RoundRobin) && t.timeslice_left > 0
                    && sat_sub(t.timeslice_left, delta) == 0;
                let dl_exh = matches!(t.policy.class(), SchedClass::DeadlineClass) && t.dl_budget
                    > 0 && sat_sub(t.dl_budget, delta) == 0;
                self.tasks.set(p, t2);
                self.cpus.set(
                    cpu,
                    CpuRunState {
                        last_tick: now2,
                        tick_count: sat_add(cs1.tick_count, 1),
                        rt_window_used: used2,
                        rt_throttled: throttled2,
                        resched_needed: cs1.resched_needed || rr_exp || dl_exh || fresh_throttle,
                        ..cs1
                    },
                );
                self.now = now2;
                self.tick_counter = sat_add(self.tick_counter, 1);
                self.stats.scheduler_ticks = sat_add(self.stats.scheduler_ticks, 1);
                if dl_exh {
                    self.stats.deadline_misses = sat_add(self.stats.deadline_misses, 1);
                }
                if fresh_throttle {
                    self.stats.rt_throttled = sat_add(self.stats.rt_throttled, 1);
                }
                proof {
                    let post = Self::spec_tick_post(old(self)@, cpu as int, now);
                    assert(self@.tasks =~= post.tasks);
                    assert(self@.cpus =~= post.cpus);
                    assert(self@ =~= post);
                }
                Ok(())
            },
        }
    }

    /// The busiest CPU among the first `n`: the largest PELT load sum,
    /// ties toward the lower id.
    pub open spec fn spec_busiest_upto(tasks: Seq<Task>, n: int) -> int
        recommends
            n >= 1,
        decreases n,
    {
        if n <= 1 {
            0
        } else {
            let rest = Self::spec_busiest_upto(tasks, n - 1);
            if crate::pelt::spec_cpu_load_sum(tasks, n - 1) > crate::pelt::spec_cpu_load_sum(
                tasks,
                rest,
            ) {
                n - 1
            } else {
                rest
            }
        }
    }

    /// The idlest CPU among the first `n`: the smallest PELT load sum,
    /// ties toward the lower id.
    pub open spec fn spec_idlest_upto(tasks: Seq<Task>, n: int) -> int
        recommends
            n >= 1,
        decreases n,
    {
        if n <= 1 {
            0
        } else {
            let rest = Self::spec_idlest_upto(tasks, n - 1);
            if crate::pelt::spec_cpu_load_sum(tasks, n - 1) < crate::pelt::spec_cpu_load_sum(
                tasks,
                rest,
            ) {
                n - 1
            } else {
                rest
            }
        }
    }

    /// Whether task `i` may be pulled from `from` to `to` by the
    /// balancer: runnable (never a running task), not pinned, allowed on
    /// the target by its affinity, not cache-hot (it last ran more than
    /// half a millisecond ago), and — for a deadline task — fitting the
    /// target CPU's bandwidth.
    pub open spec fn spec_balance_cand(
        tasks: Seq<Task>,
        i: int,
        from: int,
        to: int,
        now: u64,
        config: SchedulerConfig,
    ) -> bool {
        let t = tasks[i];
        &&& t.state == TaskState::Runnable
        &&& t.cpu == from
        &&& !t.pinned
        &&& spec_affinity_allows(t.affinity, to as usize)
        &&& spec_sat_sub(now, t.last_ran) > 500_000
        &&& (t.policy.spec_class() == SchedClass::DeadlineClass ==> spec_dl_util_sum(tasks, to)
            + t.dl.spec_util_permille() <= spec_dl_ceiling_permille(config))
    }

    /// The balancer's pick among the first `n` tasks: the eligible task
    /// with the heaviest load contribution, ties toward the lower id.
    pub open spec fn spec_balance_pick_upto(
        tasks: Seq<Task>,
        from: int,
        to: int,
        now: u64,
        config: SchedulerConfig,
        n: int,
    ) -> Option<int>
        decreases n,
    {
        if n <= 0 {
            Option::None
        } else {
            let rest = Self::spec_balance_pick_upto(tasks, from, to, now, config, n - 1);
            let c = n - 1;
            if !Self::spec_balance_cand(tasks, c, from, to, now, config) {
                rest
            } else {
                match rest {
                    Option::None => Option::Some(c),
                    Option::Some(b) => if tasks[c].load_avg > tasks[b].load_avg {
                        Option::Some(c)
                    } else {
                        Option::Some(b)
                    },
                }
            }
        }
    }

    /// A balancer pick is an eligible task.
    pub proof fn lemma_balance_pick_is_cand(
        tasks: Seq<Task>,
        from: int,
        to: int,
        now: u64,
        config: SchedulerConfig,
        n: int,
    )
        requires
            0 <= n <= tasks.len(),
        ensures
            match Self::spec_balance_pick_upto(tasks, from, to, now, config, n) {
                Option::Some(i) => 0 <= i < n && Self::spec_balance_cand(
                    tasks,
                    i,
                    from,
                    to,
                    now,
                    config,
                ),
                Option::None => true,
            },
        decreases n,
    {
        if n > 0 {
            Self::lemma_balance_pick_is_cand(tasks, from, to, now, config, n - 1);
        }
    }

    /// The busiest CPU's load is the largest.
    pub proof fn lemma_busiest_is_max(tasks: Seq<Task>, n: int, c: int)
        requires
            1 <= n,
            0 <= c < n,
        ensures
            0 <= Self::spec_busiest_upto(tasks, n) < n,
            crate::pelt::spec_cpu_load_sum(tasks, Self::spec_busiest_upto(tasks, n))
                >= crate::pelt::spec_cpu_load_sum(tasks, c),
        decreases n,
    {
        if n > 1 {
            Self::lemma_busiest_is_max(tasks, n - 1, if c < n - 1 { c } else { 0 });
        }
    }

    /// The idlest CPU's load is the smallest.
    pub proof fn lemma_idlest_is_min(tasks: Seq<Task>, n: int, c: int)
        requires
            1 <= n,
            0 <= c < n,
        ensures
            0 <= Self::spec_idlest_upto(tasks, n) < n,
            crate::pelt::spec_cpu_load_sum(tasks, Self::spec_idlest_upto(tasks, n))
                <= crate::pelt::spec_cpu_load_sum(tasks, c),
        decreases n,
    {
        if n > 1 {
            Self::lemma_idlest_is_min(tasks, n - 1, if c < n - 1 { c } else { 0 });
        }
    }

    /// One balancer move: the picked task's CPU changes to the target and
    /// the migration counter grows; with no eligible task nothing changes.
    pub open spec fn spec_balance_step(v: SchedView, from: int, to: int) -> SchedView {
        match Self::spec_balance_pick_upto(v.tasks, from, to, v.now, v.config, v.tasks.len() as int) {
            Option::None => v,
            Option::Some(i) => SchedView {
                tasks: v.tasks.update(i, Task { cpu: to as usize, ..v.tasks[i] }),
                stats: SchedulerStats {
                    migrations: spec_sat_add(v.stats.migrations, 1),
                    ..v.stats
                },
                ..v
            },
        }
    }

    /// Up to `k` balancer moves in a row, stopping once the transferred
    /// load reaches the `remaining` budget (half the load difference, so
    /// a pass cannot overshoot and flip the imbalance).
    pub open spec fn spec_balance_rounds(
        v: SchedView,
        from: int,
        to: int,
        k: int,
        remaining: u64,
    ) -> SchedView
        decreases (if k > 0 { k } else { 0 }),
    {
        if k <= 0 || remaining == 0 {
            v
        } else {
            match Self::spec_balance_pick_upto(
                v.tasks,
                from,
                to,
                v.now,
                v.config,
                v.tasks.len() as int,
            ) {
                Option::None => v,
                Option::Some(i) => Self::spec_balance_rounds(
                    Self::spec_balance_step(v, from, to),
                    from,
                    to,
                    k - 1,
                    spec_sat_sub(remaining, v.tasks[i].load_avg),
                ),
            }
        }
    }

    /// Once no task is eligible, further balancer rounds change nothing.
    pub proof fn lemma_balance_fixpoint(v: SchedView, from: int, to: int, k: int, remaining: u64)
        requires
            Self::spec_balance_pick_upto(
                v.tasks,
                from,
                to,
                v.now,
                v.config,
                v.tasks.len() as int,
            ) is None,
        ensures
            Self::spec_balance_rounds(v, from, to, k, remaining) == v,
    {
    }

    /// The scheduler after one balance pass.  The pass is limited by the
    /// balance interval in ticks; a pass below two CPUs, with an idle
    /// busiest CPU or with an imbalance under the configured threshold
    /// moves nothing.  Otherwise up to `max_migrations_per_balance` tasks
    /// are pulled, heaviest first, from the busiest to the idlest CPU.
    pub open spec fn spec_balance_post(v: SchedView) -> SchedView {
        let v1 = SchedView {
            stats: SchedulerStats {
                load_balance_calls: spec_sat_add(v.stats.load_balance_calls, 1),
                ..v.stats
            },
            ..v
        };
        if spec_sat_sub(v.tick_counter, v.last_balance_tick) < v.config.load_balance.balance_interval {
            v1
        } else {
            let v2 = SchedView { last_balance_tick: v.tick_counter, ..v1 };
            let n = v.cpus.len() as int;
            if n < 2 {
                v2
            } else {
                let busiest = Self::spec_busiest_upto(v.tasks, n);
                let idlest = Self::spec_idlest_upto(v.tasks, n);
                let bl = crate::pelt::spec_cpu_load_sum(v.tasks, busiest);
                let il = crate::pelt::spec_cpu_load_sum(v.tasks, idlest);
                if bl == 0 || (bl - il) * 100 / bl < v.config.load_balance.imbalance_threshold {
                    v2
                } else {
                    Self::spec_balance_rounds(
                        v2,
                        busiest,
                        idlest,
                        v.config.load_balance.max_migrations_per_balance as int,
                        ((bl - il) / 2) as u64,
                    )
                }
            }
        }
    }

    /// Run one load-balance pass over the machine.  Every move obeys the
    /// pulled task's affinity and the deadline bandwidth of the target.
    #[verifier::rlimit(100)]
    #[verifier::spinoff_prover]
    pub fn load_balance(&mut self) -> (r: Result<(), SchedError>)
        requires
            old(self).inv(),
        ensures
            final(self).inv(),
            final(self).psi == old(self).psi,
            r is Ok,
            !old(self)@.spec_is_running() ==> final(self)@ == old(self)@,
            old(self)@.spec_is_running() ==> final(self)@ == Self::spec_balance_post(old(self)@),
    {
        if !self.is_running() {
            return Ok(());
        }
        self.stats.load_balance_calls = sat_add(self.stats.load_balance_calls, 1);
        if sat_sub(self.tick_counter, self.last_balance_tick)
            < self.config.load_balance.balance_interval {
            proof {
                assert(self@ =~= Self::spec_balance_post(old(self)@));
            }
            return Ok(());
        }
        self.last_balance_tick = self.tick_counter;
        let n = self.cpus.len();
        if n < 2 {
            proof {
                assert(self@ =~= Self::spec_balance_post(old(self)@));
            }
            return Ok(());
        }
        let (busiest, bl) = self.busiest_cpu();
        let (idlest, il) = self.idlest_cpu();
        proof {
            Self::lemma_busiest_is_max(self@.tasks, n as int, idlest as int);
            assert(forall|i: int|
                0 <= i < self@.tasks.len() ==> (#[trigger] self@.tasks[i]).load_avg <= 1024);
            crate::pelt::lemma_cpu_load_sum_bound(self@.tasks, busiest as int);
            assert(bl >= il);
        }
        if bl == 0 || (bl - il) * 100 / bl < self.config.load_balance.imbalance_threshold as u64 {
            proof {
                assert(self@ =~= Self::spec_balance_post(old(self)@));
            }
            return Ok(());
        }
        let ghost v2 = self@;
        let rounds = self.config.load_balance.max_migrations_per_balance;
        let ghost target = ((bl - il) / 2) as u64;
        let mut rem: u64 = (bl - il) / 2;
        let mut j: u32 = 0;
        let mut done = false;
        while j < rounds && rem > 0 && !done
            invariant
                self.inv(),
                self.psi == old(self).psi,
                0 <= j <= rounds,
                busiest < self@.cpus.len(),
                idlest < self@.cpus.len(),
                Self::spec_balance_rounds(
                    self@,
                    busiest as int,
                    idlest as int,
                    rounds as int - j as int,
                    rem,
                ) == Self::spec_balance_rounds(
                    v2,
                    busiest as int,
                    idlest as int,
                    rounds as int,
                    target,
                ),
                done ==> Self::spec_balance_rounds(
                    self@,
                    busiest as int,
                    idlest as int,
                    rounds as int - j as int,
                    rem,
                ) == self@,
            decreases rounds - j,
        {
            let ghost pre = self@;
            let ghost rem0 = rem;
            let pulled = self.balance_pull_one(busiest, idlest);
            match pulled {
                Some(load) => {
                    rem = sat_sub(rem, load);
                    proof {
                        assert(Self::spec_balance_rounds(
                            pre,
                            busiest as int,
                            idlest as int,
                            rounds as int - j as int,
                            rem0,
                        ) == Self::spec_balance_rounds(
                            self@,
                            busiest as int,
                            idlest as int,
                            rounds as int - j as int - 1,
                            rem,
                        ));
                    }
                },
                None => {
                    done = true;
                    proof {
                        Self::lemma_balance_fixpoint(
                            self@,
                            busiest as int,
                            idlest as int,
                            rounds as int - j as int - 1,
                            rem,
                        );
                        Self::lemma_balance_fixpoint(
                            self@,
                            busiest as int,
                            idlest as int,
                            rounds as int - j as int,
                            rem,
                        );
                    }
                },
            }
            j = j + 1;
        }
        proof {
            assert(Self::spec_balance_rounds(
                self@,
                busiest as int,
                idlest as int,
                rounds as int - j as int,
                rem,
            ) == self@);
            assert(self@ =~= Self::spec_balance_post(old(self)@));
        }
        Ok(())
    }

    /// The busiest CPU and its load.
    fn busiest_cpu(&self) -> (r: (usize, u64))
        requires
            self.inv(),
            self@.cpus.len() >= 1,
        ensures
            r.0 as int == Self::spec_busiest_upto(self@.tasks, self@.cpus.len() as int),
            r.1 == crate::pelt::spec_cpu_load_sum(self@.tasks, r.0 as int),
            r.0 < self@.cpus.len(),
    {
        let n = self.cpus.len();
        let mut best: usize = 0;
        let mut best_load: u64 = crate::pelt::cpu_load_sum(&self.tasks, 0);
        let mut c: usize = 1;
        while c < n
            invariant
                1 <= c <= n,
                n == self@.cpus.len(),
                self.inv(),
                best < c,
                best as int == Self::spec_busiest_upto(self@.tasks, c as int),
                best_load == crate::pelt::spec_cpu_load_sum(self@.tasks, best as int),
            decreases n - c,
        {
            let load = crate::pelt::cpu_load_sum(&self.tasks, c);
            if load > best_load {
                best = c;
                best_load = load;
            }
            c = c + 1;
        }
        (best, best_load)
    }

    /// The idlest CPU and its load.
    fn idlest_cpu(&self) -> (r: (usize, u64))
        requires
            self.inv(),
            self@.cpus.len() >= 1,
        ensures
            r.0 as int == Self::spec_idlest_upto(self@.tasks, self@.cpus.len() as int),
            r.1 == crate::pelt::spec_cpu_load_sum(self@.tasks, r.0 as int),
            r.0 < self@.cpus.len(),
    {
        let n = self.cpus.len();
        let mut best: usize = 0;
        let mut best_load: u64 = crate::pelt::cpu_load_sum(&self.tasks, 0);
        let mut c: usize = 1;
        while c < n
            invariant
                1 <= c <= n,
                n == self@.cpus.len(),
                self.inv(),
                best < c,
                best as int == Self::spec_idlest_upto(self@.tasks, c as int),
                best_load == crate::pelt::spec_cpu_load_sum(self@.tasks, best as int),
            decreases n - c,
        {
            let load = crate::pelt::cpu_load_sum(&self.tasks, c);
            if load < best_load {
                best = c;
                best_load = load;
            }
            c = c + 1;
        }
        (best, best_load)
    }

    /// Pull the balancer's pick from `from` to `to`; executable form of
    /// [`CoreScheduler::spec_balance_step`].  Returns the pulled task's
    /// load contribution, or nothing when no task is eligible.
    #[verifier::rlimit(100)]
    fn balance_pull_one(&mut self, from: usize, to: usize) -> (moved: Option<u64>)
        requires
            old(self).inv(),
            from < old(self)@.cpus.len(),
            to < old(self)@.cpus.len(),
        ensures
            final(self).inv(),
            final(self).psi == old(self).psi,
            final(self)@ == Self::spec_balance_step(old(self)@, from as int, to as int),
            moved is None ==> final(self)@ == old(self)@ && Self::spec_balance_pick_upto(
                old(self)@.tasks,
                from as int,
                to as int,
                old(self)@.now,
                old(self)@.config,
                old(self)@.tasks.len() as int,
            ) is None,
            moved matches Option::Some(load) ==> (Self::spec_balance_pick_upto(
                old(self)@.tasks,
                from as int,
                to as int,
                old(self)@.now,
                old(self)@.config,
                old(self)@.tasks.len() as int,
            ) matches Option::Some(i) && load == old(self)@.tasks[i].load_avg),
    {
        let n = self.tasks.len();
        let mut best: Option<usize> = None;
        let mut i: usize = 0;
        while i < n
            invariant
                0 <= i <= n,
                n == self@.tasks.len(),
                self.inv(),
                from < self@.cpus.len(),
                to < self@.cpus.len(),
                match best {
                    Option::Some(b) => b < i && Option::Some(b as int)
                        == Self::spec_balance_pick_upto(
                        self@.tasks,
                        from as int,
                        to as int,
                        self@.now,
                        self@.config,
                        i as int,
                    ),
                    Option::None => Option::None::<int> == Self::spec_balance_pick_upto(
                        self@.tasks,
                        from as int,
                        to as int,
                        self@.now,
                        self@.config,
                        i as int,
                    ),
                },
            decreases n - i,
        {
            let t = self.tasks[i];
            let mut ok = matches!(t.state, TaskState::Runnable) && t.cpu == from && !t.pinned
                && affinity_allows(t.affinity, to) && sat_sub(self.now, t.last_ran) > 500_000;
            if ok && matches!(t.policy.class(), SchedClass::DeadlineClass) {
                let sum = dl_util_sum(&self.tasks, to);
                let ceiling = (self.config.rt_bandwidth_percent as u64) * 10;
                if sum + t.dl.util_permille() > ceiling {
                    ok = false;
                }
            }
            if ok {
                best = match best {
                    Some(b) => if t.load_avg > self.tasks[b].load_avg {
                        Some(i)
                    } else {
                        Some(b)
                    },
                    None => Some(i),
                };
            }
            i = i + 1;
        }
        match best {
            None => None,
            Some(b) => {
                proof {
                    Self::lemma_balance_pick_is_cand(
                        self@.tasks,
                        from as int,
                        to as int,
                        self@.now,
                        self@.config,
                        self@.tasks.len() as int,
                    );
                }
                let t = self.tasks[b];
                self.tasks.set(b, Task { cpu: to, ..t });
                self.stats.migrations = sat_add(self.stats.migrations, 1);
                proof {
                    let post = Self::spec_balance_step(old(self)@, from as int, to as int);
                    assert(self@.tasks =~= post.tasks);
                    assert(self@ =~= post);
                }
                Some(t.load_avg)
            },
        }
    }

    /// The scheduler after a priority boost: the task's effective
    /// real-time priority rises to `prio` when that outranks it (a
    /// smaller number is a higher priority), and the task re-enters its
    /// level's queue order.  The nominal priority stays.
    pub open spec fn spec_boost_post(v: SchedView, tid: int, prio: u32) -> SchedView {
        let t = v.tasks[tid];
        if prio < t.rt_priority {
            SchedView {
                tasks: v.tasks.update(
                    tid,
                    Task { rt_priority: prio, enqueue_seq: v.next_seq, ..t },
                ),
                next_seq: spec_sat_add(v.next_seq, 1),
                ..v
            }
        } else {
            v
        }
    }

    /// Raise a real-time task's effective priority to at least `prio`:
    /// priority inheritance, called when the task holds a lock a
    /// higher-priority task blocks on.
    #[verifier::rlimit(50)]
    pub fn boost_to(&mut self, tid: usize, prio: u32) -> (r: Result<(), SchedError>)
        requires
            old(self).inv(),
        ensures
            final(self).inv(),
            final(self).psi == old(self).psi,
            !old(self)@.spec_is_running() ==> r == Result::<(), SchedError>::Err(
                SchedError::NotRunning,
            ) && final(self)@ == old(self)@,
            old(self)@.spec_is_running() && tid >= old(self)@.tasks.len() ==> r == Result::<
                (),
                SchedError,
            >::Err(SchedError::TaskNotFound) && final(self)@ == old(self)@,
            old(self)@.spec_is_running() && tid < old(self)@.tasks.len() && prio > 99 ==> r
                == Result::<(), SchedError>::Err(SchedError::InvalidParameter) && final(self)@
                == old(self)@,
            old(self)@.spec_is_running() && tid < old(self)@.tasks.len() && prio <= 99
                && old(self)@.tasks[tid as int].policy.spec_class() != SchedClass::RtClass ==> r
                == Result::<(), SchedError>::Err(SchedError::InvalidPolicy) && final(self)@ == old(
                self,
            )@,
            old(self)@.spec_is_running() && tid < old(self)@.tasks.len() && prio <= 99
                && old(self)@.tasks[tid as int].policy.spec_class() == SchedClass::RtClass ==> r
                is Ok && final(self)@ == Self::spec_boost_post(old(self)@, tid as int, prio),
            r is Ok ==> final(self)@.tasks[tid as int].rt_priority <= old(self)@.tasks[
                tid as int
            ].rt_priority,
    {
        if !self.is_running() {
            return Err(SchedError::NotRunning);
        }
        if tid >= self.tasks.len() {
            return Err(SchedError::TaskNotFound);
        }
        if prio > 99 {
            return Err(SchedError::InvalidParameter);
        }
        let t = self.tasks[tid];
        if !matches!(t.policy.class(), SchedClass::RtClass) {
            return Err(SchedError::InvalidPolicy);
        }
        if prio < t.rt_priority {
            self.tasks.set(tid, Task { rt_priority: prio, enqueue_seq: self.next_seq, ..t });
            self.next_seq = sat_add(self.next_seq, 1);
            proof {
                let post = Self::spec_boost_post(old(self)@, tid as int, prio);
                assert(self@.tasks =~= post.tasks);
                assert(self@ =~= post);
            }
        }
        Ok(())
    }

    /// End a priority boost: the task's effective priority returns to its
    /// nominal one and the task re-enters its level's queue order.
    #[verifier::rlimit(50)]
    pub fn unboost(&mut self, tid: usize) -> (r: Result<(), SchedError>)
        requires
            old(self).inv(),
        ensures
            final(self).inv(),
            final(self).psi == old(self).psi,
            !old(self)@.spec_is_running() ==> r == Result::<(), SchedError>::Err(
                SchedError::NotRunning,
            ) && final(self)@ == old(self)@,
            old(self)@.spec_is_running() && tid >= old(self)@.tasks.len() ==> r == Result::<
                (),
                SchedError,
            >::Err(SchedError::TaskNotFound) && final(self)@ == old(self)@,
            old(self)@.spec_is_running() && tid < old(self)@.tasks.len() ==> r is Ok && ({
                let t = old(self)@.tasks[tid as int];
                final(self)@ == (SchedView {
                    tasks: old(self)@.tasks.update(
                        tid as int,
                        Task {
                            rt_priority: t.nominal_rt_priority,
                            enqueue_seq: old(self)@.next_seq,
                            ..t
                        },
                    ),
                    next_seq: spec_sat_add(old(self)@.next_seq, 1),
                    ..old(self)@
                })
            }),
            r is Ok ==> final(self)@.tasks[tid as int].rt_priority == old(self)@.tasks[
                tid as int
            ].nominal_rt_priority,
    {
        if !self.is_running() {
            return Err(SchedError::NotRunning);
        }
        if tid >= self.tasks.len() {
            return Err(SchedError::TaskNotFound);
        }
        let t = self.tasks[tid];
        self.tasks.set(
            tid,
            Task { rt_priority: t.nominal_rt_priority, enqueue_seq: self.next_seq, ..t },
        );
        self.next_seq = sat_add(self.next_seq, 1);
        proof {
            assert(self@.tasks =~= old(self)@.tasks.update(
                tid as int,
                Task {
                    rt_priority: old(self)@.tasks[tid as int].nominal_rt_priority,
                    enqueue_seq: old(self)@.next_seq,
                    ..old(self)@.tasks[tid as int]
                },
            ));
        }
        Ok(())
    }

    /// A debugging snapshot, or nothing while debugging is disabled in
    /// the configuration.  Rendering the snapshot is the caller's
    /// business.
    pub fn debug_info(&self) -> (r: Option<DebugSnapshot>)
        requires
            self.inv(),
        ensures
            !self@.config.debug_enabled ==> r is None,
            self@.config.debug_enabled ==> (r matches Option::Some(s) && {
                &&& s.state == self@.state
                &&& s.uptime_ticks == self@.tick_counter
                &&& s.stats == self@.stats
                &&& s.per_cpu@.len() == self@.cpus.len()
                &&& forall|c: int|
                    0 <= c < self@.cpus.len() ==> (#[trigger] s.per_cpu@[c]) == (CpuDebugInfo {
                        cpu: c as usize,
                        current: self@.cpus[c].current,
                        load_sum: (crate::pelt::spec_cpu_load_sum(self@.tasks, c)) as u64,
                        min_vruntime: self@.cpus[c].min_vruntime,
                        tick_count: self@.cpus[c].tick_count,
                        rt_throttled: self@.cpus[c].rt_throttled,
                    })
            }),
    {
        if !self.config.debug_enabled {
            return None;
        }
        let n = self.cpus.len();
        let mut per_cpu: Vec<CpuDebugInfo> = Vec::new();
        let mut c: usize = 0;
        while c < n
            invariant
                0 <= c <= n,
                self.inv(),
                n == self@.cpus.len(),
                per_cpu@.len() == c,
                forall|k: int|
                    0 <= k < c ==> (#[trigger] per_cpu@[k]) == (CpuDebugInfo {
                        cpu: k as usize,
                        current: self@.cpus[k].current,
                        load_sum: (crate::pelt::spec_cpu_load_sum(self@.tasks, k)) as u64,
                        min_vruntime: self@.cpus[k].min_vruntime,
                        tick_count: self@.cpus[k].tick_count,
                        rt_throttled: self@.cpus[k].rt_throttled,
                    }),
            decreases n - c,
        {
            let cs = self.cpus[c];
            proof {
                assert(forall|i: int|
                    0 <= i < self@.tasks.len() ==> (#[trigger] self@.tasks[i]).load_avg <= 1024);
                crate::pelt::lemma_cpu_load_sum_bound(self@.tasks, c as int);
            }
            let load = crate::pelt::cpu_load_sum(&self.tasks, c);
            per_cpu.push(
                CpuDebugInfo {
                    cpu: c,
                    current: cs.current,
                    load_sum: load,
                    min_vruntime: cs.min_vruntime,
                    tick_count: cs.tick_count,
                    rt_throttled: cs.rt_throttled,
                },
            );
            c = c + 1;
        }
        Some(
            DebugSnapshot {
                state: self.state,
                uptime_ticks: self.tick_counter,
                stats: self.stats,
                per_cpu,
            },
        )
    }

    /// Shut the scheduler down: drain every CPU to idle and stop.
    pub fn shutdown(&mut self) -> (r: Result<(), SchedError>)
        requires
            old(self).inv(),
        ensures
            final(self).inv(),
            final(self).psi == old(self).psi,
            !old(self)@.spec_is_running() ==> r == Result::<(), SchedError>::Err(
                SchedError::NotRunning,
            ) && final(self)@ == old(self)@,
            old(self)@.spec_is_running() ==> r is Ok && final(self)@ == Self::spec_drain(
                old(self)@,
            ),
    {
        if !self.is_running() {
            return Err(SchedError::NotRunning);
        }
        self.drain_to_stopped();
        Ok(())
    }
}

/// Debugging information of one CPU.
#[derive(Clone, Copy, Debug, PartialEq, Eq, Structural)]
pub struct CpuDebugInfo {
    /// The CPU's id.
    pub cpu: usize,
    /// Its current task, if any.
    pub current: Option<usize>,
    /// Its PELT load sum.
    pub load_sum: u64,
    /// Its fair watermark.
    pub min_vruntime: u64,
    /// Ticks processed on it.
    pub tick_count: u64,
    /// Whether its bandwidth window is throttled.
    pub rt_throttled: bool,
}

/// A debugging snapshot of the whole scheduler.
#[derive(Clone, Debug)]
pub struct DebugSnapshot {
    /// Lifecycle state.
    pub state: SchedulerState,
    /// Ticks since start.
    pub uptime_ticks: u64,
    /// Global statistics.
    pub stats: SchedulerStats,
    /// Per-CPU information.
    pub per_cpu: Vec<CpuDebugInfo>,
}

/// Saturating add written against the scheduler's clock, so the deadline
/// horizon comparison in the wake path mirrors its specification.
fn now_add(now: u64, d: u64) -> (r: u64)
    ensures
        r == spec_sat_add(now, d),
{
    sat_add(now, d)
}

/// A deadline task's own share is part of its CPU's utilization sum.
pub proof fn lemma_dl_sum_lower(tasks: Seq<Task>, cpu: int, i: int)
    requires
        0 <= i < tasks.len(),
        tasks[i].cpu == cpu,
        tasks[i].policy.spec_class() == SchedClass::DeadlineClass,
    ensures
        spec_dl_util_sum(tasks, cpu) >= tasks[i].dl.spec_util_permille(),
    decreases tasks.len(),
{
    lemma_dl_sum_nonneg(tasks.drop_last(), cpu);
    if i == tasks.len() - 1 {
    } else {
        lemma_dl_sum_lower(tasks.drop_last(), cpu, i);
    }
}

/// A deadline utilization sum is never negative.
pub proof fn lemma_dl_sum_nonneg(tasks: Seq<Task>, cpu: int)
    ensures
        spec_dl_util_sum(tasks, cpu) >= 0,
    decreases tasks.len(),
{
    if tasks.len() > 0 {
        lemma_dl_sum_nonneg(tasks.drop_last(), cpu);
    }
}

} // verus!
