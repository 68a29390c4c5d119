//! Per-entity load tracking (PELT).
//!
//! Load and utilization averages are kept on a `0..=1024` scale and
//! decayed geometrically with a half-life of thirty-two tracking periods
//! of 1024 microseconds each.  An entity that stays runnable converges
//! toward 1024; one that stays idle converges toward zero.

use vstd::prelude::*;

use crate::task::{Task, TaskState};

verus! {

/// One PELT tracking period: 1024 microseconds, in nanoseconds (with the
/// tracker's power-of-two microsecond).
pub const PELT_PERIOD_NS: u64 = 1_048_576;

/// Ceiling of the load and utilization scale.
pub const PELT_SCALE: u64 = 1024;

/// The geometric decay factor for `k` periods past the last full
/// half-life, as a Q32 fixed-point number: `2^32 * 0.5^(k/32)`.
pub open spec fn spec_decay_factor_q32(k: u64) -> u64 {
    if k == 0 { 4294967296 }
    else if k == 1 { 4202935003 }
    else if k == 2 { 4112874773 }
    else if k == 3 { 4024744348 }
    else if k == 4 { 3938502376 }
    else if k == 5 { 3854108391 }
    else if k == 6 { 3771522796 }
    else if k == 7 { 3690706840 }
    else if k == 8 { 3611622603 }
    else if k == 9 { 3534232978 }
    else if k == 10 { 3458501653 }
    else if k == 11 { 3384393094 }
    else if k == 12 { 3311872529 }
    else if k == 13 { 3240905930 }
    else if k == 14 { 3171459999 }
    else if k == 15 { 3103502151 }
    else if k == 16 { 3037000500 }
    else if k == 17 { 2971923842 }
    else if k == 18 { 2908241642 }
    else if k == 19 { 2845924021 }
    else if k == 20 { 2784941738 }
    else if k == 21 { 2725266179 }
    else if k == 22 { 2666869345 }
    else if k == 23 { 2609723834 }
    else if k == 24 { 2553802834 }
    else if k == 25 { 2499080105 }
    else if k == 26 { 2445529972 }
    else if k == 27 { 2393127307 }
    else if k == 28 { 2341847524 }
    else if k == 29 { 2291666561 }
    else if k == 30 { 2242560872 }
    else { 2194507417 }
}

/// Executable form of [`spec_decay_factor_q32`]; callers pass `k < 32`.
pub fn decay_factor_q32(k: u64) -> (r: u64)
    requires
        k < 32,
    ensures
        r == spec_decay_factor_q32(k),
        r <= 4294967296,
{
    if k == 0 { 4294967296 }
    else if k == 1 { 4202935003 }
    else if k == 2 { 4112874773 }
    else if k == 3 { 4024744348 }
    else if k == 4 { 3938502376 }
    else if k == 5 { 3854108391 }
    else if k == 6 { 3771522796 }
    else if k == 7 { 3690706840 }
    else if k == 8 { 3611622603 }
    else if k == 9 { 3534232978 }
    else if k == 10 { 3458501653 }
    else if k == 11 { 3384393094 }
    else if k == 12 { 3311872529 }
    else if k == 13 { 3240905930 }
    else if k == 14 { 3171459999 }
    else if k == 15 { 3103502151 }
    else if k == 16 { 3037000500 }
    else if k == 17 { 2971923842 }
    else if k == 18 { 2908241642 }
    else if k == 19 { 2845924021 }
    else if k == 20 { 2784941738 }
    else if k == 21 { 2725266179 }
    else if k == 22 { 2666869345 }
    else if k == 23 { 2609723834 }
    else if k == 24 { 2553802834 }
    else if k == 25 { 2499080105 }
    else if k == 26 { 2445529972 }
    else if k == 27 { 2393127307 }
    else if k == 28 { 2341847524 }
    else if k == 29 { 2291666561 }
    else if k == 30 { 2242560872 }
    else { 2194507417 }
}

/// `val` decayed by `n` tracking periods: a halving per thirty-two
/// periods, the remainder through the Q32 factor table.  Values on the
/// `0..=1024` scale reach zero after sixty-four half-lives.
pub open spec fn spec_decay(val: u64, n: u64) -> u64
    recommends
        val <= PELT_SCALE,
{
    if n >= 2048 {
        0u64
    } else {
        ((((val as int) / pow2_int(n as int / 32)) * spec_decay_factor_q32(n % 32)) / 0x1_0000_0000)
            as u64
    }
}

/// Two to the power `k` (as a mathematical integer).
pub open spec fn pow2_int(k: int) -> int
    recommends
        k >= 0,
    decreases k,
{
    if k <= 0 {
        1
    } else {
        2 * pow2_int(k - 1)
    }
}

/// `2^k` fits a `u64` shift for `k < 64`, and shifting right by `k`
/// divides by `2^k`.
pub proof fn lemma_shr_is_div_pow2(x: u64, k: u64)
    requires
        k < 64,
    ensures
        (x >> k) as int == x as int / pow2_int(k as int),
    decreases k,
{
    if k == 0 {
        assert(x >> 0 == x) by (bit_vector);
    } else {
        lemma_shr_is_div_pow2(x, (k - 1) as u64);
        assert(x >> k == (x >> ((k - 1) as u64)) >> 1) by (bit_vector)
            requires 1 <= k < 64;
        let y = x >> (k - 1) as u64;
        assert(y >> 1 == y / 2) by (bit_vector);
        assert(x as int / pow2_int(k as int - 1) / 2 == x as int / (2 * pow2_int(k as int - 1)))
            by {
            lemma_pow2_pos(k as int - 1);
            vstd::arithmetic::div_mod::lemma_div_denominator(
                x as int,
                pow2_int(k as int - 1),
                2,
            );
        }
        assert(pow2_int(k as int) == 2 * pow2_int(k as int - 1));
    }
}

/// Powers of two are positive.
pub proof fn lemma_pow2_pos(k: int)
    ensures
        pow2_int(k) >= 1,
    decreases (if k > 0 { k } else { 0 }),
{
    if k > 0 {
        lemma_pow2_pos(k - 1);
    }
}

/// Decay never increases a value.
pub proof fn lemma_decay_le(val: u64, n: u64)
    requires
        val <= PELT_SCALE,
    ensures
        spec_decay(val, n) <= val,
{
    if n < 2048 {
        lemma_pow2_pos(n as int / 32);
        let q = (val as int) / pow2_int(n as int / 32);
        let f = spec_decay_factor_q32(n % 32);
        assert(0 <= q <= val) by {
            vstd::arithmetic::div_mod::lemma_div_is_ordered_by_denominator(
                val as int,
                1,
                pow2_int(n as int / 32),
            );
        }
        assert(f <= 0x1_0000_0000);
        assert(q * f / 0x1_0000_0000 <= val) by (nonlinear_arith)
            requires 0 <= q <= val, 0 <= f <= 0x1_0000_0000;
    }
}

/// Executable form of [`spec_decay`].
pub fn decay(val: u64, n: u64) -> (r: u64)
    requires
        val <= PELT_SCALE,
    ensures
        r == spec_decay(val, n),
        r <= val,
{
    proof {
        lemma_decay_le(val, n);
    }
    if n >= 2048 {
        return 0;
    }
    let shift = n / 32;
    let base = val >> shift;
    proof {
        lemma_shr_is_div_pow2(val, shift);
        lemma_pow2_pos(shift as int);
        assert(base <= val) by {
            vstd::arithmetic::div_mod::lemma_div_is_ordered_by_denominator(
                val as int,
                1,
                pow2_int(shift as int),
            );
        }
        assert(base * spec_decay_factor_q32(n % 32) <= 1024 * 4294967296) by (nonlinear_arith)
            requires 0 <= base <= 1024, spec_decay_factor_q32(n % 32) <= 4294967296;
    }
    let factor = decay_factor_q32(n % 32);
    (base * factor) / 0x1_0000_0000
}

/// The load or utilization average after `n` periods during which the
/// entity was contributing (`active`) or not: an active entity converges
/// toward the scale ceiling, an inactive one decays toward zero.
pub open spec fn spec_avg_step(avg: u64, n: u64, active: bool) -> u64
    recommends
        avg <= PELT_SCALE,
{
    if active {
        (PELT_SCALE - spec_decay((PELT_SCALE - avg) as u64, n)) as u64
    } else {
        spec_decay(avg, n)
    }
}

/// Executable form of [`spec_avg_step`].  An active entity's average
/// never drops; an inactive one's never rises.
pub fn avg_step(avg: u64, n: u64, active: bool) -> (r: u64)
    requires
        avg <= PELT_SCALE,
    ensures
        r == spec_avg_step(avg, n, active),
        r <= PELT_SCALE,
        active ==> r >= avg,
        !active ==> r <= avg,
{
    if active {
        let gap = PELT_SCALE - avg;
        let decayed = decay(gap, n);
        PELT_SCALE - decayed
    } else {
        decay(avg, n)
    }
}

/// The task with its PELT averages brought up to time `now`: the load
/// average tracks the runnable fraction (runnable or running), the
/// utilization average the running fraction.  Whole tracking periods are
/// consumed; the remainder stays pending in `last_update`.
pub open spec fn spec_update_load(t: Task, now: u64) -> Task {
    let elapsed = crate::stats::spec_sat_sub(now, t.last_update);
    let n = elapsed / PELT_PERIOD_NS;
    let runnable = t.state == TaskState::Runnable || t.state == TaskState::Running;
    let running = t.state == TaskState::Running;
    Task {
        load_avg: spec_avg_step(t.load_avg, n, runnable),
        util_avg: spec_avg_step(t.util_avg, n, running),
        last_update: crate::stats::spec_sat_add(t.last_update, (n * PELT_PERIOD_NS) as u64),
        ..t
    }
}

/// A load-tracking refresh keeps the averages on the scale and touches
/// only the averages and the decay timestamp.
pub proof fn lemma_update_load_wf(t: Task, now: u64)
    requires
        t.load_avg <= PELT_SCALE,
        t.util_avg <= PELT_SCALE,
    ensures
        spec_update_load(t, now).load_avg <= PELT_SCALE,
        spec_update_load(t, now).util_avg <= PELT_SCALE,
        spec_update_load(t, now) == (Task {
            load_avg: spec_update_load(t, now).load_avg,
            util_avg: spec_update_load(t, now).util_avg,
            last_update: spec_update_load(t, now).last_update,
            ..t
        }),
{
    let elapsed = crate::stats::spec_sat_sub(now, t.last_update);
    let n = elapsed / PELT_PERIOD_NS;
    lemma_decay_le(t.load_avg, n);
    lemma_decay_le(t.util_avg, n);
    lemma_decay_le((PELT_SCALE - t.load_avg) as u64, n);
    lemma_decay_le((PELT_SCALE - t.util_avg) as u64, n);
}

/// Update one task's PELT averages at time `now`; executable form of
/// [`spec_update_load`].
pub fn update_task_load(task: &mut Task, now: u64)
    requires
        old(task).load_avg <= PELT_SCALE,
        old(task).util_avg <= PELT_SCALE,
    ensures
        *final(task) == spec_update_load(*old(task), now),
        final(task).load_avg <= PELT_SCALE,
        final(task).util_avg <= PELT_SCALE,
{
    let elapsed = crate::stats::sat_sub(now, task.last_update);
    let n = elapsed / PELT_PERIOD_NS;
    if n == 0 {
        proof {
            assert(spec_avg_step(task.load_avg, 0, true) == task.load_avg);
            assert(spec_avg_step(task.load_avg, 0, false) == task.load_avg);
            assert(spec_avg_step(task.util_avg, 0, true) == task.util_avg);
            assert(spec_avg_step(task.util_avg, 0, false) == task.util_avg);
        }
        return ;
    }
    let runnable = matches!(task.state, TaskState::Runnable | TaskState::Running);
    let running = matches!(task.state, TaskState::Running);
    task.load_avg = avg_step(task.load_avg, n, runnable);
    task.util_avg = avg_step(task.util_avg, n, running);
    proof {
        assert(n * PELT_PERIOD_NS <= elapsed) by (nonlinear_arith)
            requires
                n == elapsed / PELT_PERIOD_NS,
                PELT_PERIOD_NS > 0,
                elapsed <= u64::MAX,
        ;
    }
    task.last_update = crate::stats::sat_add(task.last_update, n * PELT_PERIOD_NS);
}

/// Whether a task is attached to the given CPU's runqueue for load
/// purposes: runnable or running there.
pub open spec fn spec_attached(t: Task, cpu: int) -> bool {
    t.cpu == cpu && (t.state == TaskState::Runnable || t.state == TaskState::Running)
}

/// The PELT load sum of a CPU: the sum of the load contributions of the
/// tasks currently attached to it.
pub open spec fn spec_cpu_load_sum(tasks: Seq<Task>, cpu: int) -> int
    decreases tasks.len(),
{
    if tasks.len() == 0 {
        0
    } else {
        spec_cpu_load_sum(tasks.drop_last(), cpu) + if spec_attached(tasks.last(), cpu) {
            tasks.last().load_avg as int
        } else {
            0
        }
    }
}

/// The load sum over well-formed tasks is bounded by the scale ceiling
/// times the task count.
pub proof fn lemma_cpu_load_sum_bound(tasks: Seq<Task>, cpu: int)
    requires
        forall|i: int| 0 <= i < tasks.len() ==> (#[trigger] tasks[i]).load_avg <= PELT_SCALE,
    ensures
        0 <= spec_cpu_load_sum(tasks, cpu) <= 1024 * tasks.len(),
    decreases tasks.len(),
{
    if tasks.len() > 0 {
        assert(forall|i: int|
            0 <= i < tasks.drop_last().len() ==> (#[trigger] tasks.drop_last()[i]).load_avg
                <= PELT_SCALE);
        lemma_cpu_load_sum_bound(tasks.drop_last(), cpu);
    }
}

/// Compute a CPU's PELT load sum.  The result equals the sum of the
/// contributions of the tasks currently attached to the CPU.
pub fn cpu_load_sum(tasks: &Vec<Task>, cpu: usize) -> (r: u64)
    requires
        forall|i: int| 0 <= i < tasks@.len() ==> (#[trigger] tasks@[i]).load_avg <= PELT_SCALE,
        tasks@.len() <= 0x1000_0000,
    ensures
        r == spec_cpu_load_sum(tasks@, cpu as int),
{
    let mut sum: u64 = 0;
    let mut i: usize = 0;
    proof {
        assert(tasks@.subrange(0, 0) =~= Seq::<Task>::empty());
    }
    while i < tasks.len()
        invariant
            0 <= i <= tasks@.len(),
            tasks@.len() <= 0x1000_0000,
            forall|j: int| 0 <= j < tasks@.len() ==> (#[trigger] tasks@[j]).load_avg <= PELT_SCALE,
            sum == spec_cpu_load_sum(tasks@.subrange(0, i as int), cpu as int),
            sum <= 1024 * i,
        decreases tasks@.len() - i,
    {
        proof {
            assert(tasks@.subrange(0, i + 1).drop_last() =~= tasks@.subrange(0, i as int));
            assert(tasks@.subrange(0, i + 1).last() == tasks@[i as int]);
        }
        let t = &tasks[i];
        if t.cpu == cpu && (matches!(t.state, TaskState::Runnable | TaskState::Running)) {
            sum = sum + t.load_avg;
        }
        i = i + 1;
    }
    proof {
        assert(tasks@.subrange(0, tasks@.len() as int) =~= tasks@);
    }
    sum
}

/// The PELT utilization sum of a CPU, over the same attached tasks.
pub open spec fn spec_cpu_util_sum(tasks: Seq<Task>, cpu: int) -> int
    decreases tasks.len(),
{
    if tasks.len() == 0 {
        0
    } else {
        spec_cpu_util_sum(tasks.drop_last(), cpu) + if spec_attached(tasks.last(), cpu) {
            tasks.last().util_avg as int
        } else {
            0
        }
    }
}

/// Compute a CPU's PELT utilization sum.
pub fn cpu_util_sum(tasks: &Vec<Task>, cpu: usize) -> (r: u64)
    requires
        forall|i: int| 0 <= i < tasks@.len() ==> (#[trigger] tasks@[i]).util_avg <= PELT_SCALE,
        tasks@.len() <= 0x1000_0000,
    ensures
        r == spec_cpu_util_sum(tasks@, cpu as int),
{
    let mut sum: u64 = 0;
    let mut i: usize = 0;
    proof {
        assert(tasks@.subrange(0, 0) =~= Seq::<Task>::empty());
    }
    while i < tasks.len()
        invariant
            0 <= i <= tasks@.len(),
            tasks@.len() <= 0x1000_0000,
            forall|j: int| 0 <= j < tasks@.len() ==> (#[trigger] tasks@[j]).util_avg <= PELT_SCALE,
            sum == spec_cpu_util_sum(tasks@.subrange(0, i as int), cpu as int),
            sum <= 1024 * i,
        decreases tasks@.len() - i,
    {
        proof {
            assert(tasks@.subrange(0, i + 1).drop_last() =~= tasks@.subrange(0, i as int));
            assert(tasks@.subrange(0, i + 1).last() == tasks@[i as int]);
        }
        let t = &tasks[i];
        if t.cpu == cpu && (matches!(t.state, TaskState::Runnable | TaskState::Running)) {
            sum = sum + t.util_avg;
        }
        i = i + 1;
    }
    proof {
        assert(tasks@.subrange(0, tasks@.len() as int) =~= tasks@);
    }
    sum
}

} // verus!
