//! Selection between two values by a condition.
use vstd::prelude::*;

verus! {

/// A condition that selects one of two values.
pub trait Conditional<If, Else>: Sized {
    /// The type of the selected value.
    type Output;

    /// What `select` returns.
    spec fn select_spec(self, first: If, second: Else) -> Self::Output;

    /// `first` where the condition holds, `second` where it does not.
    fn select(self, first: If, second: Else) -> (r: Self::Output)
        ensures
            r == self.select_spec(first, second),
    ;
}

impl<T> Conditional<T, T> for bool {
    type Output = T;

    open spec fn select_spec(self, first: T, second: T) -> T {
        if self {
            first
        } else {
            second
        }
    }

    fn select(self, first: T, second: T) -> (r: T) {
        if self {
            first
        } else {
            second
        }
    }
}

} // verus!
