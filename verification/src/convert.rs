//! Conversions between whole numbers, fractions and the primitive integer
//! types. Every conversion is exact or rejected.
use crate::consts::ConstFraction;
use crate::error::FractionError;
use crate::ratio::Ratio;
use crate::Fractional;
use vstd::prelude::*;

verus! {

/// Names the conversion of a fraction to a bare natural number.
pub struct UInt;

/// Names the conversion of a bare natural number to a fraction.
pub struct Fraction;

/// Conversion between the forms of a fractional value, named by `T`.
/// The converted value denotes the same ratio.
pub trait Convert<T>: Fractional {
    /// The form converted to.
    type Output: Fractional;

    /// The values that have the other form.
    spec fn convertible(&self) -> bool;

    /// The same value in the other form.
    fn convert(self) -> (r: Self::Output)
        requires
            self.convertible(),
        ensures
            r.ratio() == self.ratio(),
    ;
}

impl Convert<UInt> for ConstFraction {
    type Output = u64;

    /// Only a fraction with denominator one is a natural number.
    open spec fn convertible(&self) -> bool {
        self.denom == 1
    }

    fn convert(self) -> (r: u64) {
        self.num
    }
}

impl Convert<Fraction> for u64 {
    type Output = ConstFraction;

    open spec fn convertible(&self) -> bool {
        true
    }

    fn convert(self) -> (r: ConstFraction) {
        ConstFraction::const_from_scalar(self)
    }
}

/// The natural number that `r` denotes where its denominator is one and its
/// numerator is at most `max`, and the reason for which it is rejected
/// otherwise.
pub open spec fn integral(r: Ratio, max: nat) -> Result<nat, FractionError> {
    if r.denom != 1 {
        Err(FractionError::NotIntegral)
    } else if r.num > max {
        Err(FractionError::OutOfRange)
    } else {
        Ok(r.num)
    }
}

/// The numerator of a value with denominator one, where it is at most `max`.
fn integral_value<T: Fractional>(value: &T, max: u64) -> (r: Result<u64, FractionError>)
    ensures
        integral(value.ratio(), max as nat) matches Ok(n) ==> r == Ok::<u64, FractionError>(
            n as u64,
        ),
        integral(value.ratio(), max as nat) matches Err(e) ==> r == Err::<u64, FractionError>(e),
{
    if value.denom() != 1 {
        Err(FractionError::NotIntegral)
    } else if value.num() > max {
        Err(FractionError::OutOfRange)
    } else {
        Ok(value.num())
    }
}

/// Exact conversion of a fractional value to the primitive type `R`.
pub trait ToPrimitive<R>: Fractional {
    /// What `value` returns.
    spec fn value_spec(&self) -> Result<R, FractionError>;

    /// The value as an `R`, or the reason for which it has none.
    fn value(&self) -> (r: Result<R, FractionError>)
        ensures
            r == self.value_spec(),
    ;
}

impl<T: Fractional> ToPrimitive<u8> for T {
    open spec fn value_spec(&self) -> Result<u8, FractionError> {
        match integral(self.ratio(), u8::MAX as nat) {
            Ok(n) => Ok(n as u8),
            Err(e) => Err(e),
        }
    }

    fn value(&self) -> (r: Result<u8, FractionError>) {
        match integral_value(self, u8::MAX as u64) {
            Ok(n) => Ok(n as u8),
            Err(e) => Err(e),
        }
    }
}

impl<T: Fractional> ToPrimitive<u16> for T {
    open spec fn value_spec(&self) -> Result<u16, FractionError> {
        match integral(self.ratio(), u16::MAX as nat) {
            Ok(n) => Ok(n as u16),
            Err(e) => Err(e),
        }
    }

    fn value(&self) -> (r: Result<u16, FractionError>) {
        match integral_value(self, u16::MAX as u64) {
            Ok(n) => Ok(n as u16),
            Err(e) => Err(e),
        }
    }
}

impl<T: Fractional> ToPrimitive<u32> for T {
    open spec fn value_spec(&self) -> Result<u32, FractionError> {
        match integral(self.ratio(), u32::MAX as nat) {
            Ok(n) => Ok(n as u32),
            Err(e) => Err(e),
        }
    }

    fn value(&self) -> (r: Result<u32, FractionError>) {
        match integral_value(self, u32::MAX as u64) {
            Ok(n) => Ok(n as u32),
            Err(e) => Err(e),
        }
    }
}

impl<T: Fractional> ToPrimitive<u64> for T {
    open spec fn value_spec(&self) -> Result<u64, FractionError> {
        match integral(self.ratio(), u64::MAX as nat) {
            Ok(n) => Ok(n as u64),
            Err(e) => Err(e),
        }
    }

    fn value(&self) -> (r: Result<u64, FractionError>) {
        integral_value(self, u64::MAX)
    }
}

impl<T: Fractional> ToPrimitive<usize> for T {
    open spec fn value_spec(&self) -> Result<usize, FractionError> {
        match integral(self.ratio(), usize::MAX as nat) {
            Ok(n) => Ok(n as usize),
            Err(e) => Err(e),
        }
    }

    fn value(&self) -> (r: Result<usize, FractionError>) {
        match integral_value(self, usize::MAX as u64) {
            Ok(n) => Ok(n as usize),
            Err(e) => Err(e),
        }
    }
}

impl<T: Fractional> ToPrimitive<i8> for T {
    open spec fn value_spec(&self) -> Result<i8, FractionError> {
        match integral(self.ratio(), i8::MAX as nat) {
            Ok(n) => Ok(n as i8),
            Err(e) => Err(e),
        }
    }

    fn value(&self) -> (r: Result<i8, FractionError>) {
        match integral_value(self, i8::MAX as u64) {
            Ok(n) => Ok(n as i8),
            Err(e) => Err(e),
        }
    }
}

impl<T: Fractional> ToPrimitive<i16> for T {
    open spec fn value_spec(&self) -> Result<i16, FractionError> {
        match integral(self.ratio(), i16::MAX as nat) {
            Ok(n) => Ok(n as i16),
            Err(e) => Err(e),
        }
    }

    fn value(&self) -> (r: Result<i16, FractionError>) {
        match integral_value(self, i16::MAX as u64) {
            Ok(n) => Ok(n as i16),
            Err(e) => Err(e),
        }
    }
}

impl<T: Fractional> ToPrimitive<i32> for T {
    open spec fn value_spec(&self) -> Result<i32, FractionError> {
        match integral(self.ratio(), i32::MAX as nat) {
            Ok(n) => Ok(n as i32),
            Err(e) => Err(e),
        }
    }

    fn value(&self) -> (r: Result<i32, FractionError>) {
        match integral_value(self, i32::MAX as u64) {
            Ok(n) => Ok(n as i32),
            Err(e) => Err(e),
        }
    }
}

impl<T: Fractional> ToPrimitive<i64> for T {
    open spec fn value_spec(&self) -> Result<i64, FractionError> {
        match integral(self.ratio(), i64::MAX as nat) {
            Ok(n) => Ok(n as i64),
            Err(e) => Err(e),
        }
    }

    fn value(&self) -> (r: Result<i64, FractionError>) {
        match integral_value(self, i64::MAX as u64) {
            Ok(n) => Ok(n as i64),
            Err(e) => Err(e),
        }
    }
}

impl<T: Fractional> ToPrimitive<isize> for T {
    open spec fn value_spec(&self) -> Result<isize, FractionError> {
        match integral(self.ratio(), isize::MAX as nat) {
            Ok(n) => Ok(n as isize),
            Err(e) => Err(e),
        }
    }

    fn value(&self) -> (r: Result<isize, FractionError>) {
        match integral_value(self, isize::MAX as u64) {
            Ok(n) => Ok(n as isize),
            Err(e) => Err(e),
        }
    }
}

impl<T: Fractional> ToPrimitive<ConstFraction> for T {
    open spec fn value_spec(&self) -> Result<ConstFraction, FractionError> {
        if self.ratio().denom == 0 {
            Err(FractionError::ZeroDenominator)
        } else {
            Ok(
                crate::consts::Fraction {
                    num: self.ratio().num as u64,
                    denom: self.ratio().denom as u64,
                },
            )
        }
    }

    fn value(&self) -> (r: Result<ConstFraction, FractionError>) {
        ConstFraction::try_new(self.num(), self.denom())
    }
}

} // verus!
