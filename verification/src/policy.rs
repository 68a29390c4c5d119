//! Scheduler lifecycle states, scheduling policies and class ordering.

use vstd::prelude::*;

verus! {

/// Lifecycle state of the whole scheduler.
#[derive(Clone, Copy, Debug, PartialEq, Eq, Structural)]
pub enum SchedulerState {
    /// Scheduler not initialized.
    Uninitialized,
    /// Currently initializing.
    Initializing,
    /// Normal operation.
    Running,
    /// Temporarily suspended.
    Suspended,
    /// Gracefully stopping.
    Stopping,
    /// Completely stopped.
    Stopped,
    /// Error state requiring restart.
    Error,
}

impl SchedulerState {
    /// Whether the scheduler can take scheduling decisions right now.
    pub fn can_schedule(&self) -> (r: bool)
        ensures
            r == (self is Running),
    {
        matches!(self, SchedulerState::Running)
    }

    /// Whether the scheduler is in a stable state.
    pub fn is_stable(&self) -> (r: bool)
        ensures
            r == (self is Running || self is Stopped),
    {
        matches!(self, SchedulerState::Running | SchedulerState::Stopped)
    }
}

/// Scheduling policy of a task.  The policy selects the scheduling class
/// and fixes how the task competes inside it.
#[derive(Clone, Copy, Debug, PartialEq, Eq, Hash, Structural)]
pub enum SchedPolicy {
    /// Weighted-fair scheduling; the default for normal tasks.
    Normal,
    /// FIFO real-time scheduling.
    Fifo,
    /// Round-robin real-time scheduling.
    RoundRobin,
    /// Batch processing, below normal tasks.
    Batch,
    /// Idle tasks, the lowest class.
    Idle,
    /// Deadline scheduling with timing guarantees.
    Deadline,
    /// Interactive tasks; fair class with higher responsiveness.
    Interactive,
    /// Background tasks, very low priority.
    Background,
    /// Stop tasks, above every other class; used for machinery such as
    /// migration handshakes.
    Stop,
}

/// The scheduling class a policy belongs to.  Classes are queried in the
/// fixed dispatch order stop, deadline, real-time, fair, idle.
#[derive(Clone, Copy, Debug, PartialEq, Eq, Structural)]
pub enum SchedClass {
    /// Stop class, the top sentinel.
    StopClass,
    /// Deadline class (earliest deadline first with bandwidth control).
    DeadlineClass,
    /// Real-time class (priority FIFO and round-robin).
    RtClass,
    /// Weighted-fair class.
    FairClass,
    /// Idle class, the bottom sentinel.
    IdleClass,
}

impl SchedClass {
    /// Rank of the class in the dispatch order; a larger rank is queried
    /// first and outranks a smaller one.
    pub open spec fn spec_rank(self) -> u32 {
        match self {
            SchedClass::StopClass => 4,
            SchedClass::DeadlineClass => 3,
            SchedClass::RtClass => 2,
            SchedClass::FairClass => 1,
            SchedClass::IdleClass => 0,
        }
    }

    /// Executable form of [`SchedClass::spec_rank`].
    pub fn rank(&self) -> (r: u32)
        ensures
            r == self.spec_rank(),
    {
        match self {
            SchedClass::StopClass => 4,
            SchedClass::DeadlineClass => 3,
            SchedClass::RtClass => 2,
            SchedClass::FairClass => 1,
            SchedClass::IdleClass => 0,
        }
    }
}

impl SchedPolicy {
    /// The class this policy belongs to.
    pub open spec fn spec_class(self) -> SchedClass {
        match self {
            SchedPolicy::Stop => SchedClass::StopClass,
            SchedPolicy::Deadline => SchedClass::DeadlineClass,
            SchedPolicy::Fifo | SchedPolicy::RoundRobin => SchedClass::RtClass,
            SchedPolicy::Normal | SchedPolicy::Interactive | SchedPolicy::Batch
            | SchedPolicy::Background => SchedClass::FairClass,
            SchedPolicy::Idle => SchedClass::IdleClass,
        }
    }

    /// Executable form of [`SchedPolicy::spec_class`].
    pub fn class(&self) -> (r: SchedClass)
        ensures
            r == self.spec_class(),
    {
        match self {
            SchedPolicy::Stop => SchedClass::StopClass,
            SchedPolicy::Deadline => SchedClass::DeadlineClass,
            SchedPolicy::Fifo | SchedPolicy::RoundRobin => SchedClass::RtClass,
            SchedPolicy::Normal | SchedPolicy::Interactive | SchedPolicy::Batch
            | SchedPolicy::Background => SchedClass::FairClass,
            SchedPolicy::Idle => SchedClass::IdleClass,
        }
    }

    /// Base priority class label of the policy.
    pub fn priority_class(&self) -> (r: u32)
        ensures
            (self is Fifo || self is RoundRobin) ==> r == 100,
            self is Deadline ==> r == 90,
            self is Interactive ==> r == 80,
            self is Normal ==> r == 50,
            self is Batch ==> r == 30,
            self is Background ==> r == 10,
            self is Idle ==> r == 0,
            self is Stop ==> r == 110,
    {
        match self {
            SchedPolicy::Stop => 110,
            SchedPolicy::Fifo | SchedPolicy::RoundRobin => 100,
            SchedPolicy::Deadline => 90,
            SchedPolicy::Interactive => 80,
            SchedPolicy::Normal => 50,
            SchedPolicy::Batch => 30,
            SchedPolicy::Background => 10,
            SchedPolicy::Idle => 0,
        }
    }

    /// Whether this is a real-time policy (FIFO, round-robin or deadline).
    pub fn is_realtime(&self) -> (r: bool)
        ensures
            r == (self is Fifo || self is RoundRobin || self is Deadline),
    {
        matches!(self, SchedPolicy::Fifo | SchedPolicy::RoundRobin | SchedPolicy::Deadline)
    }

    /// Whether this policy runs in the fair class with the batch variant:
    /// a larger slice and no wake-up preemption of incumbents.
    pub open spec fn spec_is_batch_variant(self) -> bool {
        self is Batch || self is Background
    }

    /// Executable form of [`SchedPolicy::spec_is_batch_variant`].
    pub fn is_batch_variant(&self) -> (r: bool)
        ensures
            r == self.spec_is_batch_variant(),
    {
        matches!(self, SchedPolicy::Batch | SchedPolicy::Background)
    }

    /// Name of the scheduler responsible for this policy.
    pub fn scheduler_name(&self) -> (r: &'static str)
        ensures
            (self is Normal || self is Interactive) ==> r@ == "CFS"@,
            (self is Fifo || self is RoundRobin) ==> r@ == "RT"@,
            self is Deadline ==> r@ == "DL"@,
            (self is Batch || self is Background) ==> r@ == "BATCH"@,
            self is Idle ==> r@ == "IDLE"@,
            self is Stop ==> r@ == "STOP"@,
    {
        match self {
            SchedPolicy::Normal | SchedPolicy::Interactive => "CFS",
            SchedPolicy::Fifo | SchedPolicy::RoundRobin => "RT",
            SchedPolicy::Deadline => "DL",
            SchedPolicy::Batch | SchedPolicy::Background => "BATCH",
            SchedPolicy::Idle => "IDLE",
            SchedPolicy::Stop => "STOP",
        }
    }
}

/// Outcome of one scheduling decision on a CPU.
#[derive(Clone, Copy, Debug, PartialEq, Eq, Structural)]
pub enum ScheduleResult {
    /// Continue running the current task.
    KeepCurrent,
    /// Switch to the task with this id.
    SwitchTo(usize),
    /// The CPU should go idle.
    GoIdle,
    /// Reschedule immediately: a higher-class task arrived.
    RescheduleImmediate,
}

/// Advisory scheduling hint derived from pressure-stall information.
#[derive(Clone, Copy, Debug, PartialEq, Eq, Structural)]
pub enum SchedulingHint {
    /// Normal scheduling.
    Normal,
    /// Bias fair picks toward lighter tasks.
    PreferLightTasks,
    /// Refuse admission of new batch and background tasks.
    LimitNewTasks,
    /// Actively reduce system load.
    ReduceLoad,
}

/// CPU frequency governors.
#[derive(Clone, Copy, Debug, PartialEq, Eq, Structural)]
pub enum Governor {
    /// Maximum performance: the highest available frequency.
    Performance,
    /// Power saving: the lowest available frequency.
    Powersave,
    /// Dynamic scaling based on CPU utilization.
    Ondemand,
    /// Conservative scaling with gradual adjustments.
    Conservative,
    /// Manual frequency control.
    Userspace,
}

impl Governor {
    /// The governor's name.
    pub fn as_str(&self) -> (r: &'static str)
        ensures
            self is Performance ==> r@ == "performance"@,
            self is Powersave ==> r@ == "powersave"@,
            self is Ondemand ==> r@ == "ondemand"@,
            self is Conservative ==> r@ == "conservative"@,
            self is Userspace ==> r@ == "userspace"@,
    {
        match self {
            Governor::Performance => "performance",
            Governor::Powersave => "powersave",
            Governor::Ondemand => "ondemand",
            Governor::Conservative => "conservative",
            Governor::Userspace => "userspace",
        }
    }
}

} // verus!
