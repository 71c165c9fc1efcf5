//! Why an operation on fractions is rejected.
use vstd::prelude::*;

verus! {

/// The reasons for which an operation is rejected instead of giving a
/// wrong or undefined result.
#[derive(Copy, Clone, Debug, PartialEq, Eq, Structural)]
pub enum FractionError {
    /// An operand has, or the result would have, a zero denominator.
    ZeroDenominator,
    /// The value has a denominator other than one, so it is no integer.
    NotIntegral,
    /// The exact result does not fit in the target type.
    OutOfRange,
}

} // verus!
