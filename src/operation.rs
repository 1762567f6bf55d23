use vstd::prelude::*;

verus! {

/// The binary operations that a calculator records in its history.
#[derive(Debug, Clone, Copy, PartialEq, Eq, Structural)]
pub enum Operation {
    Add,
    Subtract,
    Multiply,
    Divide,
}

} // verus!
