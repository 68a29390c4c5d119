//! Error kinds of the scheduler core.
//!
//! All variants are unit variants so that hot paths (`schedule`, `tick`)
//! never allocate on error.  Caller errors are returned without a state
//! change; admission and migration rejections leave the task where it was.

use vstd::prelude::*;

verus! {

/// Every way an operation of the scheduler core can fail.
#[derive(Clone, Copy, Debug, PartialEq, Eq, Structural)]
pub enum SchedError {
    /// The scheduler is not in the `Running` state.
    NotRunning,
    /// `init` was called on a scheduler that is already initialized.
    AlreadyInitialized,
    /// An operation needs a component that was never initialized.
    NotInitialized,
    /// No task with the given id exists.
    TaskNotFound,
    /// The requested scheduling policy is not valid for the operation.
    InvalidPolicy,
    /// A caller-supplied parameter is out of range.
    InvalidParameter,
    /// The target CPU is not in the task's affinity mask.
    AffinityViolation,
    /// The task may not be migrated right now (for instance, it is running).
    MigrationNotAllowed,
    /// The task is pinned to its CPU and never migrates.
    PinnedTask,
    /// Admitting the task would exceed the deadline or pressure budget.
    AdmissionDenied,
    /// A frequency change came sooner than the minimum transition interval.
    RateLimited,
    /// The thermal rule refused a frequency increase.
    ThermalThrottled,
    /// The requested frequency is outside the safe operating range.
    InvalidFrequency,
    /// The requested frequency is not offered by the hardware.
    UnsupportedFrequency,
    /// The frequency table is empty.
    NoFrequenciesAvailable,
    /// The requested idle state is outside the valid range.
    InvalidState,
    /// The requested idle state is not offered by the hardware.
    UnsupportedState,
    /// An internal invariant was found broken; scheduling must stop.
    InternalInvariantViolated,
}

impl SchedError {
    /// A short name for the error, for callers that log or display it.
    pub fn name(&self) -> (r: &'static str)
        ensures
            self is NotRunning ==> r@ == "not_running"@,
            self is AdmissionDenied ==> r@ == "admission_denied"@,
            self is ThermalThrottled ==> r@ == "thermal_throttled"@,
    {
        match self {
            SchedError::NotRunning => "not_running",
            SchedError::AlreadyInitialized => "already_initialized",
            SchedError::NotInitialized => "not_initialized",
            SchedError::TaskNotFound => "task_not_found",
            SchedError::InvalidPolicy => "invalid_policy",
            SchedError::InvalidParameter => "invalid_parameter",
            SchedError::AffinityViolation => "affinity_violation",
            SchedError::MigrationNotAllowed => "migration_not_allowed",
            SchedError::PinnedTask => "pinned_task",
            SchedError::AdmissionDenied => "admission_denied",
            SchedError::RateLimited => "rate_limited",
            SchedError::ThermalThrottled => "thermal_throttled",
            SchedError::InvalidFrequency => "invalid_frequency",
            SchedError::UnsupportedFrequency => "unsupported_frequency",
            SchedError::NoFrequenciesAvailable => "no_frequencies_available",
            SchedError::InvalidState => "invalid_state",
            SchedError::UnsupportedState => "unsupported_state",
            SchedError::InternalInvariantViolated => "internal_invariant_violated",
        }
    }
}

} // verus!
