//! Core of a multi-class, multi-CPU task scheduler.
//!
//! The crate decides, on every scheduling tick or event, which runnable task
//! should execute on each CPU.  It coordinates several scheduling classes
//! (stop, deadline, real-time, fair, idle), performs cross-CPU load balancing,
//! tracks per-entity load and per-CPU pressure, and exposes CPU-frequency and
//! CPU-idle controls for power-aware scheduling.
//!
//! All state lives behind explicit handles ([`sched::CoreScheduler`],
//! [`cpufreq::CpuFreqControl`], [`cpuidle::CpuIdleControl`],
//! [`psi::PSIScheduler`]); time is a monotonic nanosecond value supplied by
//! the caller, so every decision the core takes is a pure function of its
//! state and its inputs.

pub mod errors;
pub mod policy;
pub mod config;
pub mod stats;
pub mod task;
pub mod pelt;
pub mod pick;
pub mod sched;
pub mod laws;
pub mod psi;
pub mod cpufreq;
pub mod cpuidle;
