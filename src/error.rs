use vstd::prelude::*;

verus! {

/// The ways a calculator operation can fail. A failed operation leaves the
/// calculator's state as it was.
#[derive(Debug, Clone, Copy, PartialEq, Eq, Structural)]
pub enum CalcError {
    DivisionByZero,
    NegativeSqrt,
    Overflow,
}

/// The human-readable message of each error kind.
pub open spec fn message_of(e: CalcError) -> Seq<char> {
    match e {
        CalcError::DivisionByZero => "Division by zero"@,
        CalcError::NegativeSqrt => "Cannot take square root of negative number"@,
        CalcError::Overflow => "Factorial overflow: n must be <= 20"@,
    }
}

impl CalcError {
    /// The message that a host shows for this error.
    pub fn as_str(&self) -> (r: &'static str)
        ensures
            r@ == message_of(*self),
    {
        match self {
            CalcError::DivisionByZero => "Division by zero",
            CalcError::NegativeSqrt => "Cannot take square root of negative number",
            CalcError::Overflow => "Factorial overflow: n must be <= 20",
        }
    }
}

} // verus!
