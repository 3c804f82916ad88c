use crate::arith::{lemma_wrapping_mul, trunc_div, wrap_i8};
use crate::log::{after_counter_change, LogLine};
use vstd::prelude::*;

verus! {

/// Why a calculator operation failed. A failed operation leaves the stored
/// result as it was.
#[derive(PartialEq, Eq, Structural, Clone, Copy, Debug)]
pub enum CalcError {
    /// The divisor was zero.
    DivideByZero,
}

/// The calculator variant: it stores the wrapped result of the last
/// multiplication or division. Its range is that of `i8`, so it needs no
/// further invariant.
#[derive(Clone, Copy, Debug)]
pub struct Counter {
    pub result: i8,
}

impl Default for Counter {
    fn default() -> (c: Counter)
        ensures
            c.result == 0,
    {
        Counter { result: 0 }
    }
}

impl Counter {
    /// The stored result.
    pub fn get_result(&self) -> (r: i8)
        ensures
            r == self.result,
    {
        self.result
    }

    /// Stores `x * y` reduced into the 8-bit signed range, then logs the
    /// result and the wraparound note, in that order.
    pub fn mul(&mut self, x: i8, y: i8) -> (logs: Vec<LogLine>)
        ensures
            final(self).result as int == wrap_i8(x * y),
            logs@ == seq![LogLine::Multiplied(final(self).result), LogLine::WrapWarning],
    {
        proof {
            lemma_wrapping_mul(x, y);
        }
        self.result = x.wrapping_mul(y);
        let mut logs: Vec<LogLine> = Vec::new();
        logs.push(LogLine::Multiplied(self.result));
        logs.push(after_counter_change());
        logs
    }

    /// Stores `x / y`, rounded toward zero and reduced into the 8-bit signed
    /// range (only `-128 / -1` needs the reduction), then logs the result and
    /// the wraparound note, in that order. A zero divisor fails the call and
    /// leaves the stored result untouched.
    pub fn div(&mut self, x: i8, y: i8) -> (r: Result<Vec<LogLine>, CalcError>)
        ensures
            r is Err <==> y == 0,
            r is Err ==> r == Err::<Vec<LogLine>, CalcError>(CalcError::DivideByZero)
                && final(self).result == old(self).result,
            r matches Ok(logs) ==> final(self).result as int == wrap_i8(trunc_div(x as int, y as int))
                && logs@ == seq![LogLine::Divided(final(self).result), LogLine::WrapWarning],
    {
        if y == 0 {
            return Err(CalcError::DivideByZero);
        }
        let q: i8 = match x.checked_div(y) {
            Some(q) => q,
            // The one quotient out of range is `-128 / -1 == 128`, which wraps
            // back to `-128`.
            None => x,
        };
        self.result = q;
        let mut logs: Vec<LogLine> = Vec::new();
        logs.push(LogLine::Divided(self.result));
        logs.push(after_counter_change());
        Ok(logs)
    }

    /// Sets the result to zero and logs that once, without the wraparound
    /// note.
    pub fn reset(&mut self) -> (logs: Vec<LogLine>)
        ensures
            final(self).result == 0,
            logs@ == seq![LogLine::ResultReset],
            !logs@.contains(LogLine::WrapWarning),
    {
        self.result = 0;
        let mut logs: Vec<LogLine> = Vec::new();
        logs.push(LogLine::ResultReset);
        logs
    }
}

} // verus!
