//! CPU-idle state control.
//!
//! The hardware driver is an external collaborator: its idle-state table
//! (ids and exit latencies) is handed in as plain values.  This module owns
//! the selection logic: validation of requested states, and the pick of
//! the deepest state whose exit latency is at most a quarter of the
//! expected idle time.

use vstd::prelude::*;

use crate::errors::SchedError;

verus! {

/// Lowest valid idle state id.
pub const MIN_IDLE_STATE: u64 = 0;

/// Highest valid idle state id.
pub const MAX_IDLE_STATE: u64 = 7;

/// One hardware idle state: its id and its exit latency.
#[derive(Clone, Copy, Debug, PartialEq, Eq, Structural)]
pub struct CpuIdleState {
    /// State id; deeper states have larger ids.
    pub id: u64,
    /// Exit latency of the state, nanoseconds.
    pub exit_latency_ns: u64,
}

/// Idle state usage statistics.
#[derive(Clone, Debug)]
pub struct CpuIdleStats {
    /// Total time spent in each idle state, `(state_id, time_us)`.
    pub state_usage_time: Vec<(u64, u64)>,
    /// Number of entries into each idle state, `(state_id, count)`.
    pub state_entry_count: Vec<(u64, u64)>,
    /// Average time per entry for each state, `(state_id, avg_time_us)`.
    pub average_residency: Vec<(u64, u64)>,
    /// Current active state.
    pub current_state: u64,
    /// Total idle time across all states, microseconds.
    pub total_idle_time: u64,
}

/// A well-formed idle state table: non-empty, ids strictly increasing and
/// within range, exit latencies non-decreasing with depth.
pub open spec fn spec_table_wf(s: Seq<CpuIdleState>) -> bool {
    &&& 1 <= s.len() <= 8
    &&& forall|i: int| 0 <= i < s.len() ==> (#[trigger] s[i]).id <= MAX_IDLE_STATE
    &&& forall|i: int, j: int|
        0 <= i < j < s.len() ==> (#[trigger] s[i]).id < (#[trigger] s[j]).id
    &&& forall|i: int, j: int|
        0 <= i < j < s.len() ==> (#[trigger] s[i]).exit_latency_ns
            <= (#[trigger] s[j]).exit_latency_ns
}

/// Whether a table offers a state with the given id.
pub open spec fn spec_table_has(s: Seq<CpuIdleState>, id: u64) -> bool {
    exists|i: int| 0 <= i < s.len() && (#[trigger] s[i]).id == id
}

/// The deepest state of a well-formed table whose exit latency is at most
/// a quarter of the expected idle time; the shallowest state when none
/// qualifies.
pub open spec fn spec_pick_state(s: Seq<CpuIdleState>, expected_idle_ns: u64) -> u64
    recommends
        s.len() >= 1,
    decreases s.len(),
{
    if s.len() <= 1 {
        s[0].id
    } else if s.last().exit_latency_ns * 4 <= expected_idle_ns {
        s.last().id
    } else {
        spec_pick_state(s.drop_last(), expected_idle_ns)
    }
}

/// The CPU-idle control handle.
///
/// [`CpuIdleControl::wf`] is established by the constructors and preserved
/// by every operation.
#[derive(Clone, Debug)]
pub struct CpuIdleControl {
    /// Whether the control was initialized.
    pub initialized: bool,
    /// The idle states the hardware offers, shallow to deep.
    pub states: Vec<CpuIdleState>,
    /// Current idle state id.
    pub current_state: u64,
    /// The state restored by default.
    pub default_state: u64,
    /// Entries into each state, parallel to `states`.
    pub entry_counts: Vec<u64>,
    /// Time spent in each state in microseconds, parallel to `states`.
    pub usage_time: Vec<u64>,
    /// Total idle time, microseconds.
    pub total_idle_time: u64,
}

impl CpuIdleControl {
    /// Well-formedness: once initialized, a sane table, parallel counters
    /// and both the current and the default state offered.
    pub open spec fn wf(self) -> bool {
        self.initialized ==> {
            &&& spec_table_wf(self.states@)
            &&& spec_table_has(self.states@, self.current_state)
            &&& spec_table_has(self.states@, self.default_state)
            &&& self.entry_counts@.len() == self.states@.len()
            &&& self.usage_time@.len() == self.states@.len()
        }
    }

    /// A fresh, uninitialized control.
    pub fn new() -> (r: Self)
        ensures
            r.wf(),
            !r.initialized,
    {
        CpuIdleControl {
            initialized: false,
            states: Vec::new(),
            current_state: 0,
            default_state: 0,
            entry_counts: Vec::new(),
            usage_time: Vec::new(),
            total_idle_time: 0,
        }
    }

    /// Initialize with a conventional four-state table.
    pub fn init(&mut self) -> (r: Result<(), SchedError>)
        requires
            old(self).wf(),
        ensures
            final(self).wf(),
            r is Ok,
            final(self).initialized,
            old(self).initialized ==> *final(self) == *old(self),
            !old(self).initialized ==> final(self).current_state == 0 && final(self).default_state
                == 0,
    {
        if self.initialized {
            return Ok(());
        }
        let mut table: Vec<CpuIdleState> = Vec::new();
        table.push(CpuIdleState { id: 0, exit_latency_ns: 0 });
        table.push(CpuIdleState { id: 1, exit_latency_ns: 1_000 });
        table.push(CpuIdleState { id: 2, exit_latency_ns: 50_000 });
        table.push(CpuIdleState { id: 3, exit_latency_ns: 500_000 });
        proof {
            assert(table@.len() == 4);
            assert(table@[0] == CpuIdleState { id: 0u64, exit_latency_ns: 0u64 });
            assert(table@[1] == CpuIdleState { id: 1u64, exit_latency_ns: 1_000u64 });
            assert(table@[2] == CpuIdleState { id: 2u64, exit_latency_ns: 50_000u64 });
            assert(table@[3] == CpuIdleState { id: 3u64, exit_latency_ns: 500_000u64 });
            assert(spec_table_has(table@, 0));
            assert forall|i: int, j: int| 0 <= i < j < table@.len() implies (#[trigger] table@[i]).id
                < (#[trigger] table@[j]).id by {}
            assert forall|i: int, j: int| 0 <= i < j < table@.len() implies (#[trigger] table@[i])
                .exit_latency_ns <= (#[trigger] table@[j]).exit_latency_ns by {}
            assert(spec_table_wf(table@));
        }
        self.init_with_table(table, 0)
    }

    /// Initialize from a hardware table.  Initializing twice is accepted
    /// and changes nothing; an ill-formed table or a default state the
    /// table does not offer is refused.
    pub fn init_with_table(&mut self, states: Vec<CpuIdleState>, default_state: u64) -> (r: Result<
        (),
        SchedError,
    >)
        requires
            old(self).wf(),
        ensures
            final(self).wf(),
            old(self).initialized ==> r is Ok && *final(self) == *old(self),
            !old(self).initialized && !(spec_table_wf(states@) && spec_table_has(
                states@,
                default_state,
            )) ==> r == Result::<(), SchedError>::Err(SchedError::InvalidParameter) && *final(self)
                == *old(self),
            !old(self).initialized && spec_table_wf(states@) && spec_table_has(
                states@,
                default_state,
            ) ==> {
                &&& r is Ok
                &&& final(self).initialized
                &&& final(self).states@ == states@
                &&& final(self).current_state == default_state
                &&& final(self).default_state == default_state
                &&& final(self).total_idle_time == 0
            },
    {
        if self.initialized {
            return Ok(());
        }
        if !table_is_valid(&states) || !table_has(&states, default_state) {
            return Err(SchedError::InvalidParameter);
        }
        let n = states.len();
        let mut entry_counts: Vec<u64> = Vec::new();
        let mut usage_time: Vec<u64> = Vec::new();
        let mut i: usize = 0;
        while i < n
            invariant
                entry_counts@.len() == i,
                usage_time@.len() == i,
                0 <= i <= n,
            decreases n - i,
        {
            entry_counts.push(0);
            usage_time.push(0);
            i = i + 1;
        }
        self.states = states;
        self.current_state = default_state;
        self.default_state = default_state;
        self.entry_counts = entry_counts;
        self.usage_time = usage_time;
        self.total_idle_time = 0;
        self.initialized = true;
        Ok(())
    }

    /// The current idle state.
    pub fn get_current_idle_state(&self) -> (r: Result<u64, SchedError>)
        ensures
            !self.initialized ==> r == Result::<u64, SchedError>::Err(SchedError::NotInitialized),
            self.initialized ==> r == Result::<u64, SchedError>::Ok(self.current_state),
    {
        if !self.initialized {
            return Err(SchedError::NotInitialized);
        }
        Ok(self.current_state)
    }

    /// Select an idle state: refused when the control is uninitialized,
    /// the id is out of range, or the table does not offer the state.
    pub fn set_idle_state(&mut self, state: u64) -> (r: Result<(), SchedError>)
        requires
            old(self).wf(),
        ensures
            final(self).wf(),
            !old(self).initialized ==> r == Result::<(), SchedError>::Err(
                SchedError::NotInitialized,
            ) && *final(self) == *old(self),
            old(self).initialized && state > MAX_IDLE_STATE ==> r == Result::<(), SchedError>::Err(
                SchedError::InvalidState,
            ) && *final(self) == *old(self),
            old(self).initialized && state <= MAX_IDLE_STATE && !spec_table_has(
                old(self).states@,
                state,
            ) ==> r == Result::<(), SchedError>::Err(SchedError::UnsupportedState) && *final(self)
                == *old(self),
            old(self).initialized && state <= MAX_IDLE_STATE && spec_table_has(
                old(self).states@,
                state,
            ) ==> r is Ok && *final(self) == (CpuIdleControl {
                current_state: state,
                ..*old(self)
            }),
    {
        if !self.initialized {
            return Err(SchedError::NotInitialized);
        }
        if state > MAX_IDLE_STATE {
            return Err(SchedError::InvalidState);
        }
        if !table_has(&self.states, state) {
            return Err(SchedError::UnsupportedState);
        }
        self.current_state = state;
        Ok(())
    }

    /// The ids of the offered idle states, shallow to deep.
    pub fn get_available_idle_states(&self) -> (r: Result<Vec<u64>, SchedError>)
        ensures
            !self.initialized ==> r == Result::<Vec<u64>, SchedError>::Err(
                SchedError::NotInitialized,
            ),
            self.initialized ==> r is Ok && r.unwrap()@ == self.states@.map_values(
                |s: CpuIdleState| s.id,
            ),
    {
        if !self.initialized {
            return Err(SchedError::NotInitialized);
        }
        let mut out: Vec<u64> = Vec::new();
        let mut i: usize = 0;
        while i < self.states.len()
            invariant
                0 <= i <= self.states@.len(),
                out@ == self.states@.subrange(0, i as int).map_values(|s: CpuIdleState| s.id),
            decreases self.states@.len() - i,
        {
            out.push(self.states[i].id);
            proof {
                assert(out@ =~= self.states@.subrange(0, i + 1).map_values(
                    |s: CpuIdleState| s.id,
                ));
            }
            i = i + 1;
        }
        proof {
            assert(self.states@.subrange(0, self.states@.len() as int) =~= self.states@);
        }
        Ok(out)
    }

    /// Restore the default idle state.
    pub fn restore_default_idle_state(&mut self) -> (r: Result<(), SchedError>)
        requires
            old(self).wf(),
        ensures
            final(self).wf(),
            !old(self).initialized ==> r == Result::<(), SchedError>::Err(
                SchedError::NotInitialized,
            ) && *final(self) == *old(self),
            old(self).initialized ==> r is Ok && *final(self) == (CpuIdleControl {
                current_state: old(self).default_state,
                ..*old(self)
            }),
    {
        if !self.initialized {
            return Err(SchedError::NotInitialized);
        }
        self.current_state = self.default_state;
        Ok(())
    }

    /// Whether idle state management is initialized and usable.
    pub fn is_supported(&self) -> (r: bool)
        ensures
            r == self.initialized,
    {
        self.initialized
    }

    /// The conventional name of an idle state: `C0` through `C7`.
    pub fn get_idle_state_name(&self, state: u64) -> (r: Result<String, SchedError>)
        ensures
            !self.initialized ==> r == Result::<String, SchedError>::Err(
                SchedError::NotInitialized,
            ),
            self.initialized && state > MAX_IDLE_STATE ==> r == Result::<String, SchedError>::Err(
                SchedError::InvalidState,
            ),
            self.initialized && state <= MAX_IDLE_STATE ==> (r matches Result::Ok(n) && {
                &&& state == 0 ==> n@ == "C0"@
                &&& state == 1 ==> n@ == "C1"@
                &&& state == 2 ==> n@ == "C2"@
                &&& state == 3 ==> n@ == "C3"@
                &&& state == 4 ==> n@ == "C4"@
                &&& state == 5 ==> n@ == "C5"@
                &&& state == 6 ==> n@ == "C6"@
                &&& state == 7 ==> n@ == "C7"@
            }),
    {
        if !self.initialized {
            return Err(SchedError::NotInitialized);
        }
        if state > MAX_IDLE_STATE {
            return Err(SchedError::InvalidState);
        }
        let name: &str = if state == 0 {
            "C0"
        } else if state == 1 {
            "C1"
        } else if state == 2 {
            "C2"
        } else if state == 3 {
            "C3"
        } else if state == 4 {
            "C4"
        } else if state == 5 {
            "C5"
        } else if state == 6 {
            "C6"
        } else {
            "C7"
        };
        Ok(String::from_str(name))
    }

    /// Pick and enter the deepest idle state whose exit latency is at most
    /// a quarter of the expected idle time; the shallowest state when none
    /// qualifies.  Returns the chosen state id.
    pub fn enter(&mut self, expected_idle_ns: u64) -> (r: Result<u64, SchedError>)
        requires
            old(self).wf(),
        ensures
            final(self).wf(),
            !old(self).initialized ==> r == Result::<u64, SchedError>::Err(
                SchedError::NotInitialized,
            ) && *final(self) == *old(self),
            old(self).initialized ==> {
                &&& r == Result::<u64, SchedError>::Ok(spec_pick_state(
                    old(self).states@,
                    expected_idle_ns,
                ))
                &&& final(self).current_state == spec_pick_state(
                    old(self).states@,
                    expected_idle_ns,
                )
                &&& final(self).states@ == old(self).states@
                &&& final(self).total_idle_time == crate::stats::spec_sat_add(
                    old(self).total_idle_time,
                    expected_idle_ns / 1000,
                )
            },
    {
        if !self.initialized {
            return Err(SchedError::NotInitialized);
        }
        let n = self.states.len();
        let ghost whole = self.states@;
        let mut idx: usize = n - 1;
        proof {
            assert(whole.subrange(0, n as int) =~= whole);
        }
        // Scan from the deepest state down for the first one whose exit
        // latency fits in a quarter of the expected idle time.
        while idx > 0 && (self.states[idx].exit_latency_ns > u64::MAX / 4
            || self.states[idx].exit_latency_ns * 4 > expected_idle_ns)
            invariant
                self.wf(),
                self.initialized,
                whole == self.states@,
                n == whole.len(),
                1 <= n <= 8,
                0 <= idx < n,
                spec_pick_state(whole, expected_idle_ns) == spec_pick_state(
                    whole.subrange(0, idx + 1),
                    expected_idle_ns,
                ),
            decreases idx,
        {
            proof {
                assert(whole.subrange(0, idx + 1).last() == whole[idx as int]);
                assert(whole.subrange(0, idx + 1).drop_last() =~= whole.subrange(0, idx as int));
                let lat = whole[idx as int].exit_latency_ns;
                if lat > u64::MAX / 4 {
                    assert(lat >= u64::MAX / 4 + 1);
                    assert(lat * 4 >= (u64::MAX / 4 + 1) * 4 > u64::MAX >= expected_idle_ns);
                }
            }
            idx = idx - 1;
        }
        proof {
            let sub = whole.subrange(0, idx + 1);
            assert(sub.last() == whole[idx as int]);
            if idx > 0 {
                let lat = whole[idx as int].exit_latency_ns;
                assert(lat <= u64::MAX / 4 && lat * 4 <= expected_idle_ns);
                assert(spec_pick_state(sub, expected_idle_ns) == whole[idx as int].id);
            } else {
                assert(sub.len() == 1);
                assert(sub[0] == whole[0]);
                if sub.last().exit_latency_ns * 4 <= expected_idle_ns {
                    assert(spec_pick_state(sub, expected_idle_ns) == whole[0].id);
                } else {
                    assert(spec_pick_state(sub, expected_idle_ns) == sub[0].id);
                }
            }
        }
        let chosen = self.states[idx].id;
        let prev = self.entry_counts[idx];
        self.entry_counts.set(idx, crate::stats::sat_add(prev, 1));
        let prev_usage = self.usage_time[idx];
        self.usage_time.set(idx, crate::stats::sat_add(prev_usage, expected_idle_ns / 1000));
        self.total_idle_time = crate::stats::sat_add(self.total_idle_time, expected_idle_ns / 1000);
        self.current_state = chosen;
        proof {
            assert(spec_table_has(self.states@, chosen));
        }
        Ok(chosen)
    }

    /// A statistics snapshot: usage, entry counts and average residency
    /// per state.
    pub fn get_idle_statistics(&self) -> (r: Result<CpuIdleStats, SchedError>)
        requires
            self.wf(),
        ensures
            !self.initialized ==> r == Result::<CpuIdleStats, SchedError>::Err(
                SchedError::NotInitialized,
            ),
            self.initialized ==> r is Ok && ({
                let s = r.unwrap();
                &&& s.current_state == self.current_state
                &&& s.total_idle_time == self.total_idle_time
                &&& s.state_usage_time@.len() == self.states@.len()
                &&& s.state_entry_count@.len() == self.states@.len()
                &&& s.average_residency@.len() == self.states@.len()
                &&& forall|i: int|
                    0 <= i < self.states@.len() ==> #[trigger] s.state_usage_time@[i] == (
                        self.states@[i].id,
                        self.usage_time@[i],
                    )
                &&& forall|i: int|
                    0 <= i < self.states@.len() ==> #[trigger] s.state_entry_count@[i] == (
                        self.states@[i].id,
                        self.entry_counts@[i],
                    )
                &&& forall|i: int|
                    0 <= i < self.states@.len() ==> #[trigger] s.average_residency@[i] == (
                        self.states@[i].id,
                        if self.entry_counts@[i] == 0 {
                            0u64
                        } else {
                            (self.usage_time@[i] as int / self.entry_counts@[i] as int) as u64
                        },
                    )
            }),
    {
        if !self.initialized {
            return Err(SchedError::NotInitialized);
        }
        let n = self.states.len();
        let mut usage: Vec<(u64, u64)> = Vec::new();
        let mut counts: Vec<(u64, u64)> = Vec::new();
        let mut residency: Vec<(u64, u64)> = Vec::new();
        let mut i: usize = 0;
        while i < n
            invariant
                0 <= i <= n,
                self.wf(),
                self.initialized,
                n == self.states@.len(),
                usage@.len() == i,
                counts@.len() == i,
                residency@.len() == i,
                forall|j: int|
                    0 <= j < i ==> #[trigger] usage@[j] == (
                        self.states@[j].id,
                        self.usage_time@[j],
                    ),
                forall|j: int|
                    0 <= j < i ==> #[trigger] counts@[j] == (
                        self.states@[j].id,
                        self.entry_counts@[j],
                    ),
                forall|j: int|
                    0 <= j < i ==> #[trigger] residency@[j] == (
                        self.states@[j].id,
                        if self.entry_counts@[j] == 0 {
                            0u64
                        } else {
                            (self.usage_time@[j] as int / self.entry_counts@[j] as int) as u64
                        },
                    ),
            decreases n - i,
        {
            let id = self.states[i].id;
            let u = self.usage_time[i];
            let c = self.entry_counts[i];
            usage.push((id, u));
            counts.push((id, c));
            let avg: u64 = if c == 0 {
                0
            } else {
                u / c
            };
            residency.push((id, avg));
            i = i + 1;
        }
        Ok(
            CpuIdleStats {
                state_usage_time: usage,
                state_entry_count: counts,
                average_residency: residency,
                current_state: self.current_state,
                total_idle_time: self.total_idle_time,
            },
        )
    }

    /// Clear the usage statistics.
    pub fn reset_idle_statistics(&mut self) -> (r: Result<(), SchedError>)
        requires
            old(self).wf(),
        ensures
            final(self).wf(),
            !old(self).initialized ==> r == Result::<(), SchedError>::Err(
                SchedError::NotInitialized,
            ) && *final(self) == *old(self),
            old(self).initialized ==> r is Ok && final(self).total_idle_time == 0
                && final(self).current_state == old(self).current_state
                && final(self).states@ == old(self).states@,
    {
        if !self.initialized {
            return Err(SchedError::NotInitialized);
        }
        let n = self.states.len();
        let mut entry_counts: Vec<u64> = Vec::new();
        let mut usage_time: Vec<u64> = Vec::new();
        let mut i: usize = 0;
        while i < n
            invariant
                entry_counts@.len() == i,
                usage_time@.len() == i,
                0 <= i <= n,
            decreases n - i,
        {
            entry_counts.push(0);
            usage_time.push(0);
            i = i + 1;
        }
        self.entry_counts = entry_counts;
        self.usage_time = usage_time;
        self.total_idle_time = 0;
        Ok(())
    }

    /// Shut idle management down: restore the default state and mark the
    /// control uninitialized.
    pub fn shutdown(&mut self) -> (r: Result<(), SchedError>)
        requires
            old(self).wf(),
        ensures
            final(self).wf(),
            r is Ok,
            !final(self).initialized,
            !old(self).initialized ==> *final(self) == *old(self),
            old(self).initialized ==> *final(self) == (CpuIdleControl {
                current_state: old(self).default_state,
                initialized: false,
                ..*old(self)
            }),
    {
        if !self.initialized {
            return Ok(());
        }
        self.current_state = self.default_state;
        self.initialized = false;
        Ok(())
    }
}

/// Run-time check of [`spec_table_wf`].
fn table_is_valid(states: &Vec<CpuIdleState>) -> (r: bool)
    ensures
        r == spec_table_wf(states@),
{
    let n = states.len();
    if n < 1 || n > 8 {
        return false;
    }
    let mut i: usize = 0;
    let mut ok = true;
    while i < n
        invariant
            0 <= i <= n,
            n == states@.len(),
            n <= 8,
            ok == ({
                &&& forall|j: int| 0 <= j < i ==> (#[trigger] states@[j]).id <= MAX_IDLE_STATE
                &&& forall|j: int|
                    0 < j < i ==> (#[trigger] states@[j - 1]).id < states@[j].id
                &&& forall|j: int|
                    0 < j < i ==> (#[trigger] states@[j - 1]).exit_latency_ns
                        <= states@[j].exit_latency_ns
            }),
        decreases n - i,
    {
        if states[i].id > MAX_IDLE_STATE {
            ok = false;
        }
        if i > 0 {
            if !(states[i - 1].id < states[i].id) {
                ok = false;
            }
            if !(states[i - 1].exit_latency_ns <= states[i].exit_latency_ns) {
                ok = false;
            }
        }
        i = i + 1;
    }
    proof {
        if ok {
            assert forall|a: int, b: int| 0 <= a < b < n implies (#[trigger] states@[a]).id
                < (#[trigger] states@[b]).id by {
                lemma_adjacent_increasing(states@, a, b);
            }
            assert forall|a: int, b: int| 0 <= a < b < n implies (#[trigger] states@[a])
                .exit_latency_ns <= (#[trigger] states@[b]).exit_latency_ns by {
                lemma_adjacent_latency(states@, a, b);
            }
        }
    }
    ok
}

/// Adjacent strict increase of ids gives strict increase across the table.
proof fn lemma_adjacent_increasing(s: Seq<CpuIdleState>, a: int, b: int)
    requires
        forall|j: int| 0 < j < s.len() ==> (#[trigger] s[j - 1]).id < s[j].id,
        0 <= a < b < s.len(),
    ensures
        s[a].id < s[b].id,
    decreases b - a,
{
    if b == a + 1 {
        assert(s[b - 1].id < s[b].id);
    } else {
        lemma_adjacent_increasing(s, a, b - 1);
        assert(s[b - 1].id < s[b].id);
    }
}

/// Adjacent non-decrease of latencies gives non-decrease across the table.
proof fn lemma_adjacent_latency(s: Seq<CpuIdleState>, a: int, b: int)
    requires
        forall|j: int|
            0 < j < s.len() ==> (#[trigger] s[j - 1]).exit_latency_ns <= s[j].exit_latency_ns,
        0 <= a < b < s.len(),
    ensures
        s[a].exit_latency_ns <= s[b].exit_latency_ns,
    decreases b - a,
{
    if b == a + 1 {
        assert(s[b - 1].exit_latency_ns <= s[b].exit_latency_ns);
    } else {
        lemma_adjacent_latency(s, a, b - 1);
        assert(s[b - 1].exit_latency_ns <= s[b].exit_latency_ns);
    }
}

/// Whether the table offers a state with the given id.
fn table_has(states: &Vec<CpuIdleState>, id: u64) -> (r: bool)
    ensures
        r == spec_table_has(states@, id),
{
    let mut i: usize = 0;
    while i < states.len()
        invariant
            0 <= i <= states@.len(),
            forall|j: int| 0 <= j < i ==> (#[trigger] states@[j]).id != id,
        decreases states@.len() - i,
    {
        if states[i].id == id {
            return true;
        }
        i = i + 1;
    }
    false
}

} // verus!
