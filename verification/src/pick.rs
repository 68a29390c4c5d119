//! Candidate selection inside each scheduling class, wake-up CPU
//! selection, and the per-class aggregate sums.
//!
//! Runqueue membership is derived from the task records themselves: a
//! task is queued on CPU `c` in class `k` exactly when it is `Runnable`,
//! assigned to `c`, and its policy belongs to `k`.  A task therefore
//! stands in at most one runqueue, and a `Running` task in none.

use vstd::prelude::*;

use crate::policy::SchedClass;
use crate::task::{spec_affinity_allows, Task, TaskState};

verus! {

/// Whether the task is enqueued (runnable) on the given CPU.
pub open spec fn spec_is_queued(t: Task, cpu: int) -> bool {
    t.state == TaskState::Runnable && t.cpu == cpu
}

/// Whether the task is a pick candidate of the given class on the given
/// CPU.  A deadline task is a candidate only while it has budget left.
pub open spec fn spec_class_cand(t: Task, cpu: int, class: SchedClass) -> bool {
    &&& spec_is_queued(t, cpu)
    &&& t.policy.spec_class() == class
    &&& (class == SchedClass::DeadlineClass ==> t.dl_budget > 0)
}

/// The strict preference order of a class: whether `a` is picked before
/// `b`.  Stop tasks go FIFO by enqueue stamp; deadline tasks by earliest
/// absolute deadline; real-time tasks by priority, then FIFO; fair tasks
/// by smallest virtual runtime; idle tasks by id.  Every tie falls back
/// to the smaller task id, so the order is total over distinct tasks.
pub open spec fn spec_class_better(a: Task, b: Task, class: SchedClass) -> bool {
    match class {
        SchedClass::StopClass => a.enqueue_seq < b.enqueue_seq || (a.enqueue_seq == b.enqueue_seq
            && a.id < b.id),
        SchedClass::DeadlineClass => a.dl_deadline < b.dl_deadline || (a.dl_deadline
            == b.dl_deadline && a.id < b.id),
        SchedClass::RtClass => a.rt_priority < b.rt_priority || (a.rt_priority == b.rt_priority
            && (a.enqueue_seq < b.enqueue_seq || (a.enqueue_seq == b.enqueue_seq && a.id < b.id))),
        SchedClass::FairClass => a.vruntime < b.vruntime || (a.vruntime == b.vruntime && a.id
            < b.id),
        SchedClass::IdleClass => a.id < b.id,
    }
}

/// The pick of a class among the first `n` tasks: the candidate the
/// class's preference order places first, if any.  An earlier index wins
/// when the order does not separate two candidates.
pub open spec fn spec_pick_upto(tasks: Seq<Task>, cpu: int, class: SchedClass, n: int) -> Option<
    int,
>
    recommends
        0 <= n <= tasks.len(),
    decreases n,
{
    if n <= 0 {
        Option::None
    } else {
        let rest = spec_pick_upto(tasks, cpu, class, n - 1);
        let c = n - 1;
        if !spec_class_cand(tasks[c], cpu, class) {
            rest
        } else {
            match rest {
                Option::None => Option::Some(c),
                Option::Some(b) => if spec_class_better(tasks[c], tasks[b], class) {
                    Option::Some(c)
                } else {
                    Option::Some(b)
                },
            }
        }
    }
}

/// The pick of a class on a CPU over the whole registry.
pub open spec fn spec_pick(tasks: Seq<Task>, cpu: int, class: SchedClass) -> Option<int> {
    spec_pick_upto(tasks, cpu, class, tasks.len() as int)
}

/// A pick is always a candidate of its class.
pub proof fn lemma_pick_is_candidate(tasks: Seq<Task>, cpu: int, class: SchedClass, n: int)
    requires
        0 <= n <= tasks.len(),
    ensures
        match spec_pick_upto(tasks, cpu, class, n) {
            Option::Some(i) => 0 <= i < n && spec_class_cand(tasks[i], cpu, class),
            Option::None => forall|j: int| 0 <= j < n ==> !spec_class_cand(tasks[j], cpu, class),
        },
    decreases n,
{
    if n > 0 {
        lemma_pick_is_candidate(tasks, cpu, class, n - 1);
    }
}

/// A pick is preferred over every other candidate of its class.
pub proof fn lemma_pick_is_best(tasks: Seq<Task>, cpu: int, class: SchedClass, n: int, j: int)
    requires
        0 <= n <= tasks.len(),
        0 <= j < n,
        spec_class_cand(tasks[j], cpu, class),
    ensures
        spec_pick_upto(tasks, cpu, class, n) matches Option::Some(i) && (i == j
            || !spec_class_better(tasks[j], tasks[i], class)),
    decreases n,
{
    lemma_pick_is_candidate(tasks, cpu, class, n);
    if j < n - 1 {
        lemma_pick_is_best(tasks, cpu, class, n - 1, j);
    }
}

/// Executable pick of a class on a CPU: the candidate the class's order
/// places first, or nothing when the class has no runnable task there.
pub fn pick_class(tasks: &Vec<Task>, cpu: usize, class: SchedClass) -> (r: Option<usize>)
    ensures
        match r {
            Option::Some(i) => i < tasks@.len() && Option::Some(i as int) == spec_pick(
                tasks@,
                cpu as int,
                class,
            ),
            Option::None => Option::None::<int> == spec_pick(tasks@, cpu as int, class),
        },
{
    let n = tasks.len();
    let mut best: Option<usize> = None;
    let mut i: usize = 0;
    while i < n
        invariant
            0 <= i <= n,
            n == tasks@.len(),
            match best {
                Option::Some(b) => b < n && Option::Some(b as int) == spec_pick_upto(
                    tasks@,
                    cpu as int,
                    class,
                    i as int,
                ),
                Option::None => Option::None::<int> == spec_pick_upto(
                    tasks@,
                    cpu as int,
                    class,
                    i as int,
                ),
            },
        decreases n - i,
    {
        let t = &tasks[i];
        let is_cand = matches!(t.state, TaskState::Runnable) && t.cpu == cpu && class_eq(
            t.policy.class(),
            class,
        ) && (!matches!(class, SchedClass::DeadlineClass) || t.dl_budget > 0);
        if is_cand {
            best = match best {
                Some(b) => if class_better(&tasks[i], &tasks[b], class) {
                    Some(i)
                } else {
                    Some(b)
                },
                None => Some(i),
            };
        }
        i = i + 1;
    }
    best
}

/// Executable equality of classes.
fn class_eq(a: SchedClass, b: SchedClass) -> (r: bool)
    ensures
        r == (a == b),
{
    a.rank() == b.rank()
}

/// Executable form of [`spec_class_better`].
pub fn class_better(a: &Task, b: &Task, class: SchedClass) -> (r: bool)
    ensures
        r == spec_class_better(*a, *b, class),
{
    match class {
        SchedClass::StopClass => a.enqueue_seq < b.enqueue_seq || (a.enqueue_seq == b.enqueue_seq
            && a.id < b.id),
        SchedClass::DeadlineClass => a.dl_deadline < b.dl_deadline || (a.dl_deadline
            == b.dl_deadline && a.id < b.id),
        SchedClass::RtClass => a.rt_priority < b.rt_priority || (a.rt_priority == b.rt_priority && (
        a.enqueue_seq < b.enqueue_seq || (a.enqueue_seq == b.enqueue_seq && a.id < b.id))),
        SchedClass::FairClass => a.vruntime < b.vruntime || (a.vruntime == b.vruntime && a.id
            < b.id),
        SchedClass::IdleClass => a.id < b.id,
    }
}

/// The sum of the weights of the fair tasks queued on a CPU.
pub open spec fn spec_fair_weight_sum(tasks: Seq<Task>, cpu: int) -> int
    decreases tasks.len(),
{
    if tasks.len() == 0 {
        0
    } else {
        spec_fair_weight_sum(tasks.drop_last(), cpu) + if spec_is_queued(tasks.last(), cpu)
            && tasks.last().policy.spec_class() == SchedClass::FairClass {
            tasks.last().weight as int
        } else {
            0
        }
    }
}

/// Compute the fair weight sum of a CPU.
pub fn fair_weight_sum(tasks: &Vec<Task>, cpu: usize) -> (r: u64)
    requires
        forall|i: int| 0 <= i < tasks@.len() ==> (#[trigger] tasks@[i]).weight <= 88761,
        tasks@.len() <= 0x1000_0000,
    ensures
        r == spec_fair_weight_sum(tasks@, cpu as int),
        r <= 88761 * tasks@.len(),
{
    let mut sum: u64 = 0;
    let mut i: usize = 0;
    proof {
        assert(tasks@.subrange(0, 0) =~= Seq::<Task>::empty());
    }
    while i < tasks.len()
        invariant
            0 <= i <= tasks@.len(),
            tasks@.len() <= 0x1000_0000,
            forall|j: int| 0 <= j < tasks@.len() ==> (#[trigger] tasks@[j]).weight <= 88761,
            sum == spec_fair_weight_sum(tasks@.subrange(0, i as int), cpu as int),
            sum <= 88761 * i,
        decreases tasks@.len() - i,
    {
        proof {
            assert(tasks@.subrange(0, i + 1).drop_last() =~= tasks@.subrange(0, i as int));
            assert(tasks@.subrange(0, i + 1).last() == tasks@[i as int]);
        }
        let t = &tasks[i];
        if matches!(t.state, TaskState::Runnable) && t.cpu == cpu && matches!(
            t.policy.class(),
            SchedClass::FairClass,
        ) {
            sum = sum + t.weight;
        }
        i = i + 1;
    }
    proof {
        assert(tasks@.subrange(0, tasks@.len() as int) =~= tasks@);
    }
    sum
}

/// A fair weight sum over well-formed tasks is bounded by the largest
/// weight times the task count.
pub proof fn lemma_fair_weight_sum_bounds(tasks: Seq<Task>, cpu: int)
    requires
        forall|i: int| 0 <= i < tasks.len() ==> (#[trigger] tasks[i]).weight <= 88761,
    ensures
        0 <= spec_fair_weight_sum(tasks, cpu) <= 88761 * tasks.len(),
    decreases tasks.len(),
{
    if tasks.len() > 0 {
        assert(forall|i: int|
            0 <= i < tasks.drop_last().len() ==> (#[trigger] tasks.drop_last()[i]).weight
                <= 88761);
        lemma_fair_weight_sum_bounds(tasks.drop_last(), cpu);
    }
}

/// The summed per-mille utilization of the deadline tasks assigned to a
/// CPU.  Admission keeps this at or under the configured ceiling.
pub open spec fn spec_dl_util_sum(tasks: Seq<Task>, cpu: int) -> int
    decreases tasks.len(),
{
    if tasks.len() == 0 {
        0
    } else {
        spec_dl_util_sum(tasks.drop_last(), cpu) + if tasks.last().cpu == cpu && tasks.last()
            .policy.spec_class() == SchedClass::DeadlineClass {
            tasks.last().dl.spec_util_permille() as int
        } else {
            0
        }
    }
}

/// Compute the deadline utilization sum of a CPU, per mille.
pub fn dl_util_sum(tasks: &Vec<Task>, cpu: usize) -> (r: u64)
    requires
        forall|i: int|
            0 <= i < tasks@.len() && (#[trigger] tasks@[i]).policy.spec_class()
                == SchedClass::DeadlineClass ==> tasks@[i].dl.wf(),
        tasks@.len() <= 0x1000_0000,
    ensures
        r == spec_dl_util_sum(tasks@, cpu as int),
        r <= 1000 * tasks@.len(),
{
    let mut sum: u64 = 0;
    let mut i: usize = 0;
    proof {
        assert(tasks@.subrange(0, 0) =~= Seq::<Task>::empty());
    }
    while i < tasks.len()
        invariant
            0 <= i <= tasks@.len(),
            tasks@.len() <= 0x1000_0000,
            forall|j: int|
                0 <= j < tasks@.len() && (#[trigger] tasks@[j]).policy.spec_class()
                    == SchedClass::DeadlineClass ==> tasks@[j].dl.wf(),
            sum == spec_dl_util_sum(tasks@.subrange(0, i as int), cpu as int),
            sum <= 1000 * i,
        decreases tasks@.len() - i,
    {
        proof {
            assert(tasks@.subrange(0, i + 1).drop_last() =~= tasks@.subrange(0, i as int));
            assert(tasks@.subrange(0, i + 1).last() == tasks@[i as int]);
        }
        let t = &tasks[i];
        if t.cpu == cpu && matches!(t.policy.class(), SchedClass::DeadlineClass) {
            sum = sum + t.dl.util_permille();
        }
        i = i + 1;
    }
    proof {
        assert(tasks@.subrange(0, tasks@.len() as int) =~= tasks@);
    }
    sum
}

/// Whether CPU `a` is a better wake-up target than CPU `b` for a task
/// whose previous CPU is `prev`: lower load first, then the previous CPU
/// for cache affinity, then the lower id.
pub open spec fn spec_better_cpu(tasks: Seq<Task>, a: int, b: int, prev: int) -> bool {
    let la = crate::pelt::spec_cpu_load_sum(tasks, a);
    let lb = crate::pelt::spec_cpu_load_sum(tasks, b);
    la < lb || (la == lb && (a == prev || (b != prev && a < b)))
}

/// The best wake-up CPU among the first `n` CPUs that the affinity mask
/// allows, or nothing when the mask allows none of them.
pub open spec fn spec_best_cpu_upto(tasks: Seq<Task>, aff: u64, prev: int, n: int) -> Option<int>
    recommends
        0 <= n <= 64,
    decreases n,
{
    if n <= 0 {
        Option::None
    } else {
        let rest = spec_best_cpu_upto(tasks, aff, prev, n - 1);
        let c = n - 1;
        if !spec_affinity_allows(aff, c as usize) {
            rest
        } else {
            match rest {
                Option::None => Option::Some(c),
                Option::Some(b) => if spec_better_cpu(tasks, c, b, prev) {
                    Option::Some(c)
                } else {
                    Option::Some(b)
                },
            }
        }
    }
}

/// The wake-up target CPU: the best allowed CPU, or the previous CPU when
/// the mask allows no CPU of the machine.
pub open spec fn spec_select_cpu(tasks: Seq<Task>, aff: u64, prev: int, ncpus: int) -> int {
    match spec_best_cpu_upto(tasks, aff, prev, ncpus) {
        Option::Some(c) => c,
        Option::None => prev,
    }
}

/// The selected wake-up CPU is allowed by the mask whenever any CPU of
/// the machine is.
pub proof fn lemma_best_cpu_allowed(tasks: Seq<Task>, aff: u64, prev: int, n: int)
    requires
        0 <= n <= 64,
    ensures
        match spec_best_cpu_upto(tasks, aff, prev, n) {
            Option::Some(c) => 0 <= c < n && spec_affinity_allows(aff, c as usize),
            Option::None => forall|c: int|
                0 <= c < n ==> !#[trigger] spec_affinity_allows(aff, c as usize),
        },
    decreases n,
{
    if n > 0 {
        lemma_best_cpu_allowed(tasks, aff, prev, n - 1);
    }
}

/// Executable form of [`spec_select_cpu`].
pub fn select_cpu(tasks: &Vec<Task>, aff: u64, prev: usize, ncpus: usize) -> (r: usize)
    requires
        1 <= ncpus <= 64,
        prev < ncpus,
        forall|i: int| 0 <= i < tasks@.len() ==> (#[trigger] tasks@[i]).load_avg <= 1024,
        tasks@.len() <= 0x1000_0000,
    ensures
        r as int == spec_select_cpu(tasks@, aff, prev as int, ncpus as int),
        r < ncpus,
{
    let mut best: Option<usize> = None;
    let mut best_load: u64 = 0;
    let mut c: usize = 0;
    while c < ncpus
        invariant
            0 <= c <= ncpus,
            ncpus <= 64,
            prev < ncpus,
            tasks@.len() <= 0x1000_0000,
            forall|i: int| 0 <= i < tasks@.len() ==> (#[trigger] tasks@[i]).load_avg <= 1024,
            match best {
                Option::Some(b) => b < c && Option::Some(b as int) == spec_best_cpu_upto(
                    tasks@,
                    aff,
                    prev as int,
                    c as int,
                ) && best_load == crate::pelt::spec_cpu_load_sum(tasks@, b as int),
                Option::None => Option::None::<int> == spec_best_cpu_upto(
                    tasks@,
                    aff,
                    prev as int,
                    c as int,
                ),
            },
        decreases ncpus - c,
    {
        if crate::task::affinity_allows(aff, c) {
            let load = crate::pelt::cpu_load_sum(tasks, c);
            best = match best {
                Some(b) => {
                    if load < best_load || (load == best_load && (c == prev || (b != prev && c
                        < b))) {
                        best_load = load;
                        Some(c)
                    } else {
                        Some(b)
                    }
                },
                None => {
                    best_load = load;
                    Some(c)
                },
            };
        }
        c = c + 1;
    }
    match best {
        Some(b) => b,
        None => prev,
    }
}

} // verus!
