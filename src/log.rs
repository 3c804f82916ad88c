use vstd::prelude::*;
use vstd::string::StringExecFns;

verus! {

/// One line of the log that a mutating operation asks the host to emit.
#[derive(PartialEq, Eq, Structural, Clone, Copy, Debug)]
pub enum LogLine {
    /// A multiplication stored this result.
    Multiplied(i8),
    /// A division stored this result.
    Divided(i8),
    /// The calculator's result went back to zero.
    ResultReset,
    /// The counter was stepped up to this value.
    Incremented(i8),
    /// The counter was stepped down to this value.
    Decremented(i8),
    /// The counter went back to zero.
    CounterReset,
    /// The note, after every arithmetic change, that the value wraps.
    WrapWarning,
}

/// The character of one decimal digit.
pub open spec fn digit_char(d: int) -> char {
    seq!['0', '1', '2', '3', '4', '5', '6', '7', '8', '9'][d]
}

/// The decimal digits of a natural number, most significant first, without
/// leading zeros.
pub open spec fn digits(n: nat) -> Seq<char>
    decreases n,
{
    if n < 10 {
        seq![digit_char(n as int)]
    } else {
        digits(n / 10).push(digit_char((n % 10) as int))
    }
}

/// The decimal text of an integer: its digits, after a `-` when it is negative.
pub open spec fn decimal(v: int) -> Seq<char> {
    if v < 0 {
        seq!['-'] + digits((-v) as nat)
    } else {
        digits(v as nat)
    }
}

impl LogLine {
    /// The text of the line.
    pub open spec fn spec_text(self) -> Seq<char> {
        match self {
            LogLine::Multiplied(v) => "Multiply result "@ + decimal(v as int),
            LogLine::Divided(v) => "Divide result "@ + decimal(v as int),
            LogLine::ResultReset => "Reset result to zero"@,
            LogLine::Incremented(v) => "Increased number to "@ + decimal(v as int),
            LogLine::Decremented(v) => "Decreased number to "@ + decimal(v as int),
            LogLine::CounterReset => "Reset counter to zero"@,
            LogLine::WrapWarning => "The value is an 8-bit signed integer: it wraps below -128 and above 127"@,
        }
    }

    /// Renders the line as the UTF-8 text the host logs.
    pub fn text(&self) -> (s: String)
        ensures
            s@ == self.spec_text(),
    {
        match self {
            LogLine::Multiplied(v) => String::from_str("Multiply result ").concat(
                decimal_text(*v).as_str(),
            ),
            LogLine::Divided(v) => String::from_str("Divide result ").concat(
                decimal_text(*v).as_str(),
            ),
            LogLine::ResultReset => String::from_str("Reset result to zero"),
            LogLine::Incremented(v) => String::from_str("Increased number to ").concat(
                decimal_text(*v).as_str(),
            ),
            LogLine::Decremented(v) => String::from_str("Decreased number to ").concat(
                decimal_text(*v).as_str(),
            ),
            LogLine::CounterReset => String::from_str("Reset counter to zero"),
            LogLine::WrapWarning => String::from_str(
                "The value is an 8-bit signed integer: it wraps below -128 and above 127",
            ),
        }
    }
}

/// Relies on `ToString::to_string` through the `Display` impl of `i8`: the
/// value in base ten, with a leading `-` when it is negative.
#[verifier::external_body]
fn decimal_text(v: i8) -> (s: String)
    ensures
        s@ == decimal(v as int),
{
    v.to_string()
}

/// The hook that runs after every arithmetic change (not after a reset): it
/// gives the line that warns that the value wraps.
pub fn after_counter_change() -> (line: LogLine)
    ensures
        line == LogLine::WrapWarning,
{
    LogLine::WrapWarning
}

} // verus!
