//! The global laws of the scheduler, stated and proved over the same
//! spec functions the operations' contracts use.

use vstd::prelude::*;

use crate::pick::{spec_class_cand, spec_is_queued};
use crate::policy::{SchedClass, SchedPolicy};
use crate::sched::{CoreScheduler, SchedView};
use crate::task::{DlParams, Task, TaskState};

verus! {

/// A task stands in at most one runqueue: queue membership is determined
/// by the task's own CPU assignment and class, so the same task can never
/// be a candidate on two CPUs or in two classes at once; and a `Running`
/// task is queued nowhere.
pub proof fn lemma_task_on_one_runqueue(
    t: Task,
    c1: int,
    k1: SchedClass,
    c2: int,
    k2: SchedClass,
)
    ensures
        spec_class_cand(t, c1, k1) && spec_class_cand(t, c2, k2) ==> c1 == c2 && k1 == k2,
        t.state == TaskState::Running ==> forall|c: int| !spec_is_queued(t, c),
{
}

/// A task is current on at most one CPU: in a well-formed scheduler two
/// CPUs never share a current task.
pub proof fn lemma_current_unique(v: SchedView, c1: int, c2: int, i: usize)
    requires
        v.wf(),
        0 <= c1 < v.cpus.len(),
        0 <= c2 < v.cpus.len(),
        v.cpus[c1].current == Option::Some(i),
        v.cpus[c2].current == Option::Some(i),
    ensures
        c1 == c2,
{
    assert(v.tasks[i as int].cpu == c1);
    assert(v.tasks[i as int].cpu == c2);
}

/// Every deadline task of a well-formed scheduler keeps its budget within
/// `C` and its absolute deadline at or after its release.
pub proof fn lemma_dl_bounds(v: SchedView, i: int)
    requires
        v.wf(),
        0 <= i < v.tasks.len(),
        v.tasks[i].policy.spec_class() == SchedClass::DeadlineClass,
    ensures
        v.tasks[i].dl_budget <= v.tasks[i].dl.runtime,
        v.tasks[i].dl_deadline >= v.tasks[i].dl_release,
{
}

/// The real-time plus deadline CPU time charged to any CPU's bandwidth
/// window never exceeds the configured bandwidth plus one default time
/// slice of tolerance.
pub proof fn lemma_rt_bandwidth(v: SchedView, c: int)
    requires
        v.wf(),
        0 <= c < v.cpus.len(),
    ensures
        v.cpus[c].rt_window_used <= crate::sched::spec_rt_budget_ns(v.config)
            + v.config.spec_timeslice_ns(),
{
}

/// Wake-up idempotence: waking a task twice is waking it once.  The
/// first wake leaves the task runnable (or already woken), and a wake-up
/// of a task that is neither created nor blocked changes nothing.
pub proof fn lemma_wake_idempotent(v: SchedView, tid: int)
    requires
        0 <= tid < v.tasks.len(),
    ensures
        CoreScheduler::spec_wake_post(CoreScheduler::spec_wake_post(v, tid), tid)
            == CoreScheduler::spec_wake_post(v, tid),
{
    let v1 = CoreScheduler::spec_wake_post(v, tid);
    let t = v.tasks[tid];
    if t.state == TaskState::Created || t.state == TaskState::Blocked {
        assert(v1.tasks[tid].state == TaskState::Runnable);
    } else {
        assert(v1 == v);
    }
}

/// Round trip of a policy change: setting a task's policy to `p` and then
/// back to `p0` returns the task to its original class (its virtual
/// runtime and other accounting may have advanced).
pub proof fn lemma_set_policy_round_trip(
    v: SchedView,
    tid: int,
    p: SchedPolicy,
    nice: i32,
    rt_priority: u32,
    dl: DlParams,
    p0: SchedPolicy,
    nice0: i32,
    rt_priority0: u32,
    dl0: DlParams,
)
    requires
        0 <= tid < v.tasks.len(),
        v.tasks[tid].policy == p0,
    ensures
        ({
            let once = CoreScheduler::spec_set_policy_post(v, tid, p, nice, rt_priority, dl);
            let back = CoreScheduler::spec_set_policy_post(
                once,
                tid,
                p0,
                nice0,
                rt_priority0,
                dl0,
            );
            back.tasks[tid].policy == v.tasks[tid].policy && back.tasks[tid].policy.spec_class()
                == v.tasks[tid].policy.spec_class()
        }),
{
}

/// A scheduling decision never switches a CPU to a task assigned to a
/// different CPU: every class's pick is a task queued on that CPU.
pub proof fn lemma_decision_stays_on_cpu(v: SchedView, cpu: int, i: usize)
    requires
        v.tasks.len() <= 0x1000_0000,
        0 <= cpu < v.cpus.len(),
        CoreScheduler::spec_decision(v, cpu) == crate::policy::ScheduleResult::SwitchTo(i),
    ensures
        i < v.tasks.len(),
        v.tasks[i as int].cpu == cpu,
        v.tasks[i as int].state == TaskState::Runnable,
{
    let n = v.tasks.len() as int;
    crate::pick::lemma_pick_is_candidate(v.tasks, cpu, SchedClass::StopClass, n);
    crate::pick::lemma_pick_is_candidate(v.tasks, cpu, SchedClass::DeadlineClass, n);
    crate::pick::lemma_pick_is_candidate(v.tasks, cpu, SchedClass::RtClass, n);
    crate::pick::lemma_pick_is_candidate(v.tasks, cpu, SchedClass::FairClass, n);
    crate::pick::lemma_pick_is_candidate(v.tasks, cpu, SchedClass::IdleClass, n);
}

/// After a migration to CPU `c`, no schedule on any other CPU can observe
/// the migrated task as its pick: the task is only ever picked on `c`.
/// (That a schedule on `c` can pick it is shown by the scenario tests.)
pub proof fn lemma_migrate_excludes_other_cpus(v: SchedView, tid: int, c: int, d: int, i: usize)
    requires
        v.tasks.len() <= 0x1000_0000,
        v.cpus.len() <= 64,
        0 <= tid < v.tasks.len(),
        CoreScheduler::spec_migrate_err(v, tid, c) is None,
        0 <= d < CoreScheduler::spec_migrate_post(v, tid, c).cpus.len(),
        d != c,
        CoreScheduler::spec_decision(
            CoreScheduler::spec_migrate_post(v, tid, c),
            d,
        ) == crate::policy::ScheduleResult::SwitchTo(i),
    ensures
        i != tid,
{
    let v2 = CoreScheduler::spec_migrate_post(v, tid, c);
    lemma_decision_stays_on_cpu(v2, d, i);
    assert(v2.tasks[tid].cpu == c);
}

/// No migration violates affinity: whenever the migration checks let a
/// move to `target` through, the task's affinity mask allows `target`.
pub proof fn lemma_migration_respects_affinity(v: SchedView, tid: int, target: int)
    requires
        v.cpus.len() <= 64,
        0 <= tid < v.tasks.len(),
        0 <= target,
        CoreScheduler::spec_migrate_err(v, tid, target) is None,
    ensures
        crate::task::spec_affinity_allows(v.tasks[tid].affinity, target as usize),
        CoreScheduler::spec_migrate_post(v, tid, target).tasks[tid].cpu == target,
{
}

/// The balancer, too, only moves a task to a CPU its mask allows and
/// which fits its deadline bandwidth.
pub proof fn lemma_balance_respects_affinity(v: SchedView, from: int, to: int)
    ensures
        ({
            let picked = CoreScheduler::spec_balance_pick_upto(
                v.tasks,
                from,
                to,
                v.now,
                v.config,
                v.tasks.len() as int,
            );
            picked matches Option::Some(i) ==> crate::task::spec_affinity_allows(
                v.tasks[i].affinity,
                to as usize,
            ) && !v.tasks[i].pinned
        }),
{
    CoreScheduler::lemma_balance_pick_is_cand(
        v.tasks,
        from,
        to,
        v.now,
        v.config,
        v.tasks.len() as int,
    );
}

} // verus!
