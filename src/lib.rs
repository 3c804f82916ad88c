//! A persisted signed 8-bit value with wrapping arithmetic mutators.
//!
//! Two variants share one storage shape: [`Counter`] keeps the result of the
//! last multiplication or division, [`StepCounter`] moves its value by fixed
//! steps. Every mutator returns the log lines that the host should emit, in
//! order; the host persists the value between calls.

pub mod arith;
pub mod calculator;
pub mod counter;
pub mod log;

pub use calculator::{CalcError, Counter};
pub use counter::{StepCounter, STEP};
pub use log::{after_counter_change, LogLine};
