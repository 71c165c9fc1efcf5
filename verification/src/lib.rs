//! Exact rational arithmetic over unsigned integers.
//!
//! A fraction is a numerator over a non-zero denominator. Products and
//! quotients are always returned in lowest terms, comparison is by
//! cross-multiplication, and nothing is ever rounded: an operation whose
//! exact result cannot be represented is rejected.
use vstd::prelude::*;
use vstd::std_specs::ops::DivSpec;
use vstd::std_specs::ops::MulSpec;

pub mod common;
pub mod conditional;
pub mod consts;
pub mod convert;
pub mod error;
pub mod ratio;

pub use crate::common::GreatestCommon;
pub use crate::conditional::Conditional;
pub use crate::consts::ConstFraction;
pub use crate::consts::Fraction;
pub use crate::convert::Convert;
pub use crate::convert::ToPrimitive;
pub use crate::error::FractionError;
pub use crate::ratio::Ratio;

verus! {

/// A value that denotes a fraction: a bare natural number `n`, which stands
/// for `n / 1`, or a numerator and denominator pair.
pub trait Fractional: Sized {
    /// The ratio that the value denotes.
    spec fn ratio(&self) -> Ratio;

    /// The numerator.
    fn num(&self) -> (n: u64)
        ensures
            n == self.ratio().num,
    ;

    /// The denominator.
    fn denom(&self) -> (d: u64)
        ensures
            d == self.ratio().denom,
    ;
}

impl Fractional for u64 {
    open spec fn ratio(&self) -> Ratio {
        Ratio::whole(*self as nat)
    }

    fn num(&self) -> (n: u64) {
        *self
    }

    fn denom(&self) -> (d: u64) {
        1
    }
}

impl Fractional for Fraction<u64> {
    open spec fn ratio(&self) -> Ratio {
        self@
    }

    fn num(&self) -> (n: u64) {
        self.num
    }

    fn denom(&self) -> (d: u64) {
        self.denom
    }
}

/// Fractions that can be brought to lowest terms.
pub trait Reduce: Fractional {
    /// The type of the reduced fraction.
    type Output: Fractional;

    /// The same rational number in lowest terms.
    fn reduce(self) -> (r: Self::Output)
        requires
            self.ratio().valid(),
        ensures
            r.ratio() == self.ratio().reduce(),
            r.ratio().valid(),
            r.ratio().lowest_terms(),
    ;
}

/// Fractions of which the integer part can be taken.
pub trait Truncate: Fractional {
    /// The type of the integer part.
    type Output: Fractional;

    /// The integer part, as a whole number.
    fn truncate(self) -> (r: Self::Output)
        requires
            self.ratio().valid(),
        ensures
            r.ratio() == Ratio::whole(self.ratio().truncate()),
    ;
}

/// Fractions that can be inverted.
pub trait Reciprocal: Fractional {
    /// The type of the reciprocal.
    type Output: Fractional;

    /// Numerator and denominator exchanged.
    fn reciprocal(self) -> (r: Self::Output)
        requires
            self.ratio().valid(),
            self.ratio().num != 0,
        ensures
            r.ratio() == self.ratio().reciprocal(),
            r.ratio().valid(),
    ;
}

impl Reduce for Fraction<u64> {
    type Output = Fraction<u64>;

    fn reduce(self) -> (r: Fraction<u64>) {
        self.const_reduce()
    }
}

impl<R: Fractional> Truncate for R {
    type Output = u64;

    fn truncate(self) -> (r: u64) {
        self.num() / self.denom()
    }
}

impl<R: Fractional> Reciprocal for R {
    type Output = Fraction<u64>;

    fn reciprocal(self) -> (r: Fraction<u64>) {
        Fraction::new(self.denom(), self.num())
    }
}

impl<R: Fractional> core::ops::Mul<R> for Fraction<u64> {
    type Output = Fraction<u64>;

    /// The product with any fraction or whole number, in lowest terms.
    fn mul(self, rhs: R) -> (r: Fraction<u64>)
        ensures
            r@ == self@.product(rhs.ratio()),
            r@.valid(),
            r@.lowest_terms(),
            r@.same_value(self@.raw_product(rhs.ratio())),
    {
        self.const_mul(Fraction::new(rhs.num(), rhs.denom()))
    }
}

impl<R: Fractional> vstd::std_specs::ops::MulSpecImpl<R> for Fraction<u64> {
    open spec fn obeys_mul_spec() -> bool {
        true
    }

    open spec fn mul_req(self, rhs: R) -> bool {
        self@.valid() && rhs.ratio().valid() && self@.product(rhs.ratio()).fits()
    }

    open spec fn mul_spec(self, rhs: R) -> Fraction<u64> {
        Fraction {
            num: self@.product(rhs.ratio()).num as u64,
            denom: self@.product(rhs.ratio()).denom as u64,
        }
    }
}

impl<R: Fractional> core::ops::Div<R> for Fraction<u64> {
    type Output = Fraction<u64>;

    /// The quotient by any fraction or whole number, in lowest terms.
    fn div(self, rhs: R) -> (r: Fraction<u64>)
        ensures
            r@ == self@.quotient(rhs.ratio()),
            r@.valid(),
            r@.lowest_terms(),
            r@.same_value(self@.raw_product(rhs.ratio().reciprocal())),
    {
        self * rhs.reciprocal()
    }
}

impl<R: Fractional> vstd::std_specs::ops::DivSpecImpl<R> for Fraction<u64> {
    open spec fn obeys_div_spec() -> bool {
        true
    }

    open spec fn div_req(self, rhs: R) -> bool {
        self@.valid() && rhs.ratio().valid() && rhs.ratio().num != 0 && self@.quotient(
            rhs.ratio(),
        ).fits()
    }

    open spec fn div_spec(self, rhs: R) -> Fraction<u64> {
        Fraction {
            num: self@.quotient(rhs.ratio()).num as u64,
            denom: self@.quotient(rhs.ratio()).denom as u64,
        }
    }
}

/// A whole number `n` and the fraction `n / 1`, or any two operands that
/// denote the same ratio, are the same operand to `*` and `/`: the operators
/// accept both or neither, and give the same reduced pair.
pub proof fn law_operand_form_is_irrelevant<A: Fractional, B: Fractional>(
    f: Fraction<u64>,
    a: A,
    b: B,
)
    requires
        a.ratio() == b.ratio(),
    ensures
        f.mul_req(a) == f.mul_req(b),
        f.mul_spec(a) == f.mul_spec(b),
        f.div_req(a) == f.div_req(b),
        f.div_spec(a) == f.div_spec(b),
{
}

/// The operators and the functions on plain values agree: the fraction that
/// `const_mul` or `const_div` returns, which is the one whose view is the
/// model's product or quotient, is the one that `*` or `/` returns.
pub proof fn law_operators_agree_with_plain_values(
    a: Fraction<u64>,
    b: Fraction<u64>,
    r: Fraction<u64>,
)
    requires
        a@.valid(),
        b@.valid(),
    ensures
        a.mul_req(b) <==> a@.product(b@).fits(),
        a.mul_req(b) && r@ == a@.product(b@) ==> r == a.mul_spec(b),
        a.div_req(b) <==> b.num != 0 && a@.quotient(b@).fits(),
        a.div_req(b) && r@ == a@.quotient(b@) ==> r == a.div_spec(b),
{
}

} // verus!
