//! The unit of scheduling: the task, its state, its per-class parameters
//! and its well-formedness invariant.

use vstd::prelude::*;

use crate::policy::{SchedClass, SchedPolicy};

verus! {

/// Lifecycle state of a task.
#[derive(Clone, Copy, Debug, PartialEq, Eq, Structural)]
pub enum TaskState {
    /// Created but never woken.
    Created,
    /// Enqueued on some class's runqueue, waiting for a CPU.
    Runnable,
    /// Current on some CPU.
    Running,
    /// Waiting for an event; on no runqueue.
    Blocked,
    /// Stopped; on no runqueue.
    Stopped,
    /// Finished; may be destroyed.
    Dead,
}

/// Deadline-class parameters: worst-case runtime `C`, relative deadline `D`
/// and period `T`, all in nanoseconds.
#[derive(Clone, Copy, Debug, PartialEq, Eq, Structural)]
pub struct DlParams {
    /// Worst-case runtime `C` per period.
    pub runtime: u64,
    /// Relative deadline `D`.
    pub deadline: u64,
    /// Period `T`.
    pub period: u64,
}

impl DlParams {
    /// Sanity of deadline parameters: `0 < C <= D <= T`, with `T` bounded
    /// so that per-mille utilization arithmetic cannot overflow.
    pub open spec fn wf(self) -> bool {
        &&& 1 <= self.runtime
        &&& self.runtime <= self.deadline
        &&& self.deadline <= self.period
        &&& self.period <= 1_000_000_000_000
    }

    /// Check the bounds of [`DlParams::wf`] at run time.
    pub fn is_valid(&self) -> (r: bool)
        ensures
            r == self.wf(),
    {
        1 <= self.runtime && self.runtime <= self.deadline && self.deadline <= self.period
            && self.period <= 1_000_000_000_000
    }

    /// Utilization of the task in per-mille: `C * 1000 / T`, rounded down.
    pub open spec fn spec_util_permille(self) -> u64
        recommends
            self.wf(),
    {
        ((self.runtime * 1000) as u64 / self.period) as u64
    }

    /// Executable form of [`DlParams::spec_util_permille`].
    pub fn util_permille(&self) -> (r: u64)
        requires
            self.wf(),
        ensures
            r == self.spec_util_permille(),
            r <= 1000,
    {
        proof {
            let c = self.runtime as int;
            let t = self.period as int;
            assert(c * 1000 / t <= 1000) by (nonlinear_arith)
                requires 1 <= c <= t;
        }
        self.runtime * 1000 / self.period
    }
}

/// Whether the affinity mask `mask` allows CPU `cpu`.
pub open spec fn spec_affinity_allows(mask: u64, cpu: usize) -> bool {
    (mask >> cpu) & 1 == 1
}

/// Executable form of [`spec_affinity_allows`].
pub fn affinity_allows(mask: u64, cpu: usize) -> (r: bool)
    requires
        cpu < 64,
    ensures
        r == spec_affinity_allows(mask, cpu),
{
    (mask >> cpu) & 1 == 1
}

/// The fixed weight table of the fair class, indexed by nice value in
/// `-20..=19`.  Each nice step changes the weight by a ratio near one and
/// a quarter; nice zero maps to 1024.
pub open spec fn spec_weight_of_nice(nice: i32) -> u64 {
    if nice <= -20 { 88761 }
    else if nice == -19 { 71755 }
    else if nice == -18 { 56483 }
    else if nice == -17 { 46273 }
    else if nice == -16 { 36291 }
    else if nice == -15 { 29154 }
    else if nice == -14 { 23254 }
    else if nice == -13 { 18705 }
    else if nice == -12 { 14949 }
    else if nice == -11 { 11916 }
    else if nice == -10 { 9548 }
    else if nice == -9 { 7620 }
    else if nice == -8 { 6100 }
    else if nice == -7 { 4904 }
    else if nice == -6 { 3906 }
    else if nice == -5 { 3121 }
    else if nice == -4 { 2501 }
    else if nice == -3 { 1991 }
    else if nice == -2 { 1586 }
    else if nice == -1 { 1277 }
    else if nice == 0 { 1024 }
    else if nice == 1 { 820 }
    else if nice == 2 { 655 }
    else if nice == 3 { 526 }
    else if nice == 4 { 423 }
    else if nice == 5 { 335 }
    else if nice == 6 { 272 }
    else if nice == 7 { 215 }
    else if nice == 8 { 172 }
    else if nice == 9 { 137 }
    else if nice == 10 { 110 }
    else if nice == 11 { 87 }
    else if nice == 12 { 70 }
    else if nice == 13 { 56 }
    else if nice == 14 { 45 }
    else if nice == 15 { 36 }
    else if nice == 16 { 29 }
    else if nice == 17 { 23 }
    else if nice == 18 { 18 }
    else { 15 }
}

/// Executable form of [`spec_weight_of_nice`].  Nice values outside
/// `-20..=19` clamp to the nearest end of the table.
pub fn weight_of_nice(nice: i32) -> (r: u64)
    ensures
        r == spec_weight_of_nice(nice),
        15 <= r <= 88761,
{
    if nice <= -20 { 88761 }
    else if nice == -19 { 71755 }
    else if nice == -18 { 56483 }
    else if nice == -17 { 46273 }
    else if nice == -16 { 36291 }
    else if nice == -15 { 29154 }
    else if nice == -14 { 23254 }
    else if nice == -13 { 18705 }
    else if nice == -12 { 14949 }
    else if nice == -11 { 11916 }
    else if nice == -10 { 9548 }
    else if nice == -9 { 7620 }
    else if nice == -8 { 6100 }
    else if nice == -7 { 4904 }
    else if nice == -6 { 3906 }
    else if nice == -5 { 3121 }
    else if nice == -4 { 2501 }
    else if nice == -3 { 1991 }
    else if nice == -2 { 1586 }
    else if nice == -1 { 1277 }
    else if nice == 0 { 1024 }
    else if nice == 1 { 820 }
    else if nice == 2 { 655 }
    else if nice == 3 { 526 }
    else if nice == 4 { 423 }
    else if nice == 5 { 335 }
    else if nice == 6 { 272 }
    else if nice == 7 { 215 }
    else if nice == 8 { 172 }
    else if nice == 9 { 137 }
    else if nice == 10 { 110 }
    else if nice == 11 { 87 }
    else if nice == 12 { 70 }
    else if nice == 13 { 56 }
    else if nice == 14 { 45 }
    else if nice == 15 { 36 }
    else if nice == 16 { 29 }
    else if nice == 17 { 23 }
    else if nice == 18 { 18 }
    else { 15 }
}

/// The virtual-runtime charge for wall-time `delta` at weight `weight`:
/// `delta * 1024 / weight`, saturating at the top of the 64-bit range.
pub open spec fn spec_vruntime_charge(delta: u64, weight: u64) -> u64
    recommends
        weight >= 1,
{
    let c = delta * 1024 / (weight as int);
    if c > u64::MAX {
        u64::MAX
    } else {
        c as u64
    }
}

/// Executable form of [`spec_vruntime_charge`].
pub fn vruntime_charge(delta: u64, weight: u64) -> (r: u64)
    requires
        weight >= 1,
    ensures
        r == spec_vruntime_charge(delta, weight),
{
    let wide: u128 = (delta as u128) * 1024 / (weight as u128);
    if wide > u64::MAX as u128 {
        u64::MAX
    } else {
        wide as u64
    }
}

/// A task: the unit of scheduling.  The scheduler borrows tasks from an
/// external task table; here the registry owns one record per task and the
/// record's index is the task's id.
#[derive(Clone, Copy, Debug, PartialEq, Eq, Structural)]
pub struct Task {
    /// Stable id; equals the task's index in the registry.
    pub id: usize,
    /// Scheduling policy; selects the class.
    pub policy: SchedPolicy,
    /// Lifecycle state.
    pub state: TaskState,
    /// The CPU currently owning the task.
    pub cpu: usize,
    /// Affinity mask: bit `c` set means the task may run on CPU `c`.
    pub affinity: u64,
    /// Pinned tasks never migrate.
    pub pinned: bool,
    /// Nice value in `-20..=19`; fair class only.
    pub nice: i32,
    /// Fair-class weight, `spec_weight_of_nice(nice)`.
    pub weight: u64,
    /// Virtual runtime in weighted nanoseconds; monotone per task.
    pub vruntime: u64,
    /// Effective real-time priority, `0` (highest) to `99` (lowest);
    /// raised above the nominal priority while boosted by priority
    /// inheritance.
    pub rt_priority: u32,
    /// Nominal real-time priority, restored when a boost ends.
    pub nominal_rt_priority: u32,
    /// Remaining round-robin slice in nanoseconds.
    pub timeslice_left: u64,
    /// Deadline-class parameters.
    pub dl: DlParams,
    /// Remaining deadline budget in nanoseconds; at most `dl.runtime`.
    pub dl_budget: u64,
    /// Absolute deadline of the current job, nanoseconds.
    pub dl_deadline: u64,
    /// Release time of the current job, nanoseconds.
    pub dl_release: u64,
    /// Per-entity load average, `0..=1024`.
    pub load_avg: u64,
    /// Per-entity utilization average, `0..=1024`.
    pub util_avg: u64,
    /// Timestamp of the last load decay, nanoseconds.
    pub last_update: u64,
    /// Timestamp the task last ran, nanoseconds.
    pub last_ran: u64,
    /// `sum_exec` at the moment the task was last switched in.
    pub exec_start: u64,
    /// Total CPU time consumed, nanoseconds.
    pub sum_exec: u64,
    /// Timestamp of the last wake-up, nanoseconds.
    pub wake_time: u64,
    /// Enqueue order stamp; smaller means enqueued earlier.  FIFO order
    /// inside a real-time priority level goes by this stamp.
    pub enqueue_seq: u64,
}

impl Task {
    /// The fresh task record [`Task::new`] returns.
    pub open spec fn spec_new(
        id: usize,
        policy: SchedPolicy,
        nice: i32,
        rt_priority: u32,
        dl: DlParams,
        affinity: u64,
        pinned: bool,
        cpu: usize,
        now: u64,
    ) -> Task {
        Task {
            id,
            policy,
            state: TaskState::Created,
            cpu,
            affinity,
            pinned,
            nice,
            weight: spec_weight_of_nice(nice),
            vruntime: 0u64,
            rt_priority,
            nominal_rt_priority: rt_priority,
            timeslice_left: 0u64,
            dl,
            dl_budget: dl.runtime,
            dl_deadline: spec_sat_add_u64(now, dl.deadline),
            dl_release: now,
            load_avg: 0u64,
            util_avg: 0u64,
            last_update: now,
            last_ran: 0u64,
            exec_start: 0u64,
            sum_exec: 0u64,
            wake_time: 0u64,
            enqueue_seq: 0u64,
        }
    }

    /// Well-formedness of one task record against a machine of `ncpus`
    /// CPUs.  Includes the deadline-class invariant: the remaining budget
    /// never exceeds `C` and the absolute deadline never precedes the
    /// release.
    pub open spec fn wf(self, ncpus: int) -> bool {
        &&& 0 < ncpus <= 64
        &&& self.cpu < ncpus
        &&& spec_affinity_allows(self.affinity, self.cpu)
        &&& -20 <= self.nice <= 19
        &&& self.weight == spec_weight_of_nice(self.nice)
        &&& self.rt_priority <= 99
        &&& self.nominal_rt_priority <= 99
        &&& self.rt_priority <= self.nominal_rt_priority
        &&& (self.policy.spec_class() == SchedClass::DeadlineClass ==> {
            &&& self.dl.wf()
            &&& self.dl_budget <= self.dl.runtime
            &&& self.dl_deadline >= self.dl_release
        })
        &&& self.load_avg <= 1024
        &&& self.util_avg <= 1024
    }

    /// A fresh task record in the `Created` state.
    pub fn new(
        id: usize,
        policy: SchedPolicy,
        nice: i32,
        rt_priority: u32,
        dl: DlParams,
        affinity: u64,
        pinned: bool,
        cpu: usize,
        now: u64,
    ) -> (r: Task)
        requires
            cpu < 64,
            spec_affinity_allows(affinity, cpu),
            -20 <= nice <= 19,
            rt_priority <= 99,
            policy.spec_class() == SchedClass::DeadlineClass ==> dl.wf(),
        ensures
            r == Task::spec_new(id, policy, nice, rt_priority, dl, affinity, pinned, cpu, now),
            forall|n: int| 0 < n <= 64 && cpu < n ==> r.wf(n),
    {
        Task {
            id,
            policy,
            state: TaskState::Created,
            cpu,
            affinity,
            pinned,
            nice,
            weight: weight_of_nice(nice),
            vruntime: 0,
            rt_priority,
            nominal_rt_priority: rt_priority,
            timeslice_left: 0,
            dl,
            dl_budget: dl.runtime,
            dl_deadline: crate::stats::sat_add(now, dl.deadline),
            dl_release: now,
            load_avg: 0,
            util_avg: 0,
            last_update: now,
            last_ran: 0,
            exec_start: 0,
            sum_exec: 0,
            wake_time: 0,
            enqueue_seq: 0,
        }
    }
}

/// Saturating add, mirrored here for use in task contracts.
pub open spec fn spec_sat_add_u64(a: u64, b: u64) -> u64 {
    crate::stats::spec_sat_add(a, b)
}

} // verus!
