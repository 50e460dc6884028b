//! The failures of checked arithmetic.

use vstd::prelude::*;

verus! {

/// Why a checked operation gave no number.
#[derive(Debug, Clone, Copy, PartialEq, Eq, Hash, Structural)]
pub enum ArithmeticError {
    /// `dividend` was to be divided by zero.
    DivideByZero { dividend: u32 },
}

} // verus!
