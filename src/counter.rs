use crate::arith::{lemma_wrapping_add, lemma_wrapping_sub, wrap_i8};
use crate::log::{after_counter_change, LogLine};
use vstd::prelude::*;

verus! {

/// How far one increment or decrement moves the counter.
pub const STEP: i8 = 2;

/// The counter variant: a value moved up and down by fixed steps, wrapping
/// within the range of `i8`.
#[derive(Clone, Copy, Debug)]
pub struct StepCounter {
    pub value: i8,
}

impl Default for StepCounter {
    fn default() -> (c: StepCounter)
        ensures
            c.value == 0,
    {
        StepCounter { value: 0 }
    }
}

impl StepCounter {
    /// The current value.
    pub fn get_value(&self) -> (r: i8)
        ensures
            r == self.value,
    {
        self.value
    }

    /// Adds two, wrapping from `127` round to `-127`, then logs the new value
    /// and the wraparound note, in that order.
    pub fn increment(&mut self) -> (logs: Vec<LogLine>)
        ensures
            final(self).value as int == wrap_i8(old(self).value + STEP),
            logs@ == seq![LogLine::Incremented(final(self).value), LogLine::WrapWarning],
    {
        proof {
            lemma_wrapping_add(self.value, STEP);
        }
        self.value = self.value.wrapping_add(STEP);
        let mut logs: Vec<LogLine> = Vec::new();
        logs.push(LogLine::Incremented(self.value));
        logs.push(after_counter_change());
        logs
    }

    /// Subtracts two, wrapping from `-128` round to `126`, then logs the new
    /// value and the wraparound note, in that order.
    pub fn decrement(&mut self) -> (logs: Vec<LogLine>)
        ensures
            final(self).value as int == wrap_i8(old(self).value - STEP),
            logs@ == seq![LogLine::Decremented(final(self).value), LogLine::WrapWarning],
    {
        proof {
            lemma_wrapping_sub(self.value, STEP);
        }
        self.value = self.value.wrapping_sub(STEP);
        let mut logs: Vec<LogLine> = Vec::new();
        logs.push(LogLine::Decremented(self.value));
        logs.push(after_counter_change());
        logs
    }

    /// Sets the value to zero and logs that once, without the wraparound
    /// note.
    pub fn reset(&mut self) -> (logs: Vec<LogLine>)
        ensures
            final(self).value == 0,
            logs@ == seq![LogLine::CounterReset],
            !logs@.contains(LogLine::WrapWarning),
    {
        self.value = 0;
        let mut logs: Vec<LogLine> = Vec::new();
        logs.push(LogLine::CounterReset);
        logs
    }
}

} // verus!
