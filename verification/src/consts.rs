//! Fractions of plain values: a numerator and a denominator held in 64 bits
//! each, with exact multiplication, division, reduction and truncation.
use crate::common::gcd;
use crate::common::lemma_gcd_positive;
use crate::common::GreatestCommon;
use crate::error::FractionError;
use crate::ratio::law_reduce_lowest_terms;
use crate::ratio::law_reduce_preserves_value;
use crate::ratio::Ratio;
use crate::Fractional;
use core::cmp::Ordering;
use vstd::prelude::*;

verus! {

/// A fraction of 64-bit naturals.
pub type ConstFraction = Fraction<u64>;

/// The fraction `num / denom`. Construction does not reduce; the results of
/// multiplication, division and reduction are in lowest terms.
#[derive(Debug)]
pub struct Fraction<T> {
    pub num: T,
    pub denom: T,
}

impl<T: Copy> Copy for Fraction<T> {

}

impl<T: Copy> Clone for Fraction<T> {
    fn clone(&self) -> (r: Self)
        ensures
            r == *self,
    {
        *self
    }
}

impl View for Fraction<u64> {
    type V = Ratio;

    open spec fn view(&self) -> Ratio {
        Ratio { num: self.num as nat, denom: self.denom as nat }
    }
}

/// The exact product of two 64-bit naturals.
fn wide_product(a: u64, b: u64) -> (p: u128)
    ensures
        p == a * b,
{
    assert(a * b <= u128::MAX) by (nonlinear_arith)
        requires
            a <= u64::MAX,
            b <= u64::MAX,
    ;
    a as u128 * b as u128
}

/// `n / d` in lowest terms, where it fits in 64 bits.
fn reduce_wide(n: u128, d: u128) -> (r: Result<Fraction<u64>, FractionError>)
    requires
        d != 0,
    ensures
        (Ratio { num: n as nat, denom: d as nat }).reduce().fits() ==> r.is_ok() && r.unwrap()@
            == (Ratio { num: n as nat, denom: d as nat }).reduce(),
        !(Ratio { num: n as nat, denom: d as nat }).reduce().fits() ==> r == Err::<
            Fraction<u64>,
            FractionError,
        >(FractionError::OutOfRange),
{
    proof {
        lemma_gcd_positive(n as nat, d as nat);
    }
    let g: u128 = n.greatest_common(d);
    let num: u128 = n / g;
    let denom: u128 = d / g;
    if num <= u64::MAX as u128 && denom <= u64::MAX as u128 {
        Ok(Fraction { num: num as u64, denom: denom as u64 })
    } else {
        Err(FractionError::OutOfRange)
    }
}

impl Fraction<u64> {
    /// The fraction `num / denom`, as given.
    pub fn new(num: u64, denom: u64) -> (r: Self)
        requires
            denom != 0,
        ensures
            r.num == num,
            r.denom == denom,
            r@.valid(),
    {
        Self { num, denom }
    }

    /// The fraction `num / denom`, as given, unless the denominator is zero.
    pub fn try_new(num: u64, denom: u64) -> (r: Result<Self, FractionError>)
        ensures
            denom != 0 ==> r == Ok::<Self, FractionError>(Fraction { num, denom }),
            denom == 0 ==> r == Err::<Self, FractionError>(FractionError::ZeroDenominator),
            r.is_ok() ==> r.unwrap()@.valid(),
    {
        if denom == 0 {
            Err(FractionError::ZeroDenominator)
        } else {
            Ok(Self { num, denom })
        }
    }

    /// The reciprocal: numerator and denominator exchanged.
    pub fn const_invert(self) -> (r: Self)
        requires
            self@.valid(),
            self.num != 0,
        ensures
            r@ == self@.reciprocal(),
            r@.valid(),
    {
        Self { num: self.denom, denom: self.num }
    }

    /// The reciprocal, unless the fraction is zero or has a zero denominator.
    pub fn try_invert(self) -> (r: Result<Self, FractionError>)
        ensures
            self.num != 0 && self.denom != 0 ==> r.is_ok() && r.unwrap()@ == self@.reciprocal(),
            self.num == 0 || self.denom == 0 ==> r == Err::<Self, FractionError>(
                FractionError::ZeroDenominator,
            ),
            r.is_ok() ==> r.unwrap()@.valid(),
    {
        if self.num == 0 || self.denom == 0 {
            Err(FractionError::ZeroDenominator)
        } else {
            Ok(self.const_invert())
        }
    }

    /// The natural number `num` as the fraction `num / 1`.
    pub fn const_from_scalar(num: u64) -> (r: Self)
        ensures
            r@ == Ratio::whole(num as nat),
            r@.valid(),
    {
        Self { num, denom: 1 }
    }

    /// The same rational number in lowest terms.
    pub fn const_reduce(self) -> (r: Self)
        requires
            self@.valid(),
        ensures
            r@ == self@.reduce(),
            r@.valid(),
            r@.lowest_terms(),
            r@.same_value(self@),
    {
        proof {
            lemma_gcd_positive(self.num as nat, self.denom as nat);
            law_reduce_lowest_terms(self@);
            law_reduce_preserves_value(self@);
        }
        let gcd: u64 = gcd(self.num, self.denom);
        Self { num: self.num / gcd, denom: self.denom / gcd }
    }

    /// The product, in lowest terms. Only the reduced product has to fit in
    /// 64 bits, which it does whenever the two raw products do.
    pub fn const_mul(self, rhs: Self) -> (r: Self)
        requires
            self@.valid(),
            rhs@.valid(),
            self@.product(rhs@).fits(),
        ensures
            r@ == self@.product(rhs@),
            r@.valid(),
            r@.lowest_terms(),
            r@.same_value(self@.raw_product(rhs@)),
    {
        self.try_mul(rhs).unwrap()
    }

    /// The product, in lowest terms, unless an operand has a zero denominator
    /// or the reduced product does not fit in 64 bits.
    pub fn try_mul(self, rhs: Self) -> (r: Result<Self, FractionError>)
        ensures
            !self@.valid() || !rhs@.valid() ==> r == Err::<Self, FractionError>(
                FractionError::ZeroDenominator,
            ),
            self@.valid() && rhs@.valid() && !self@.product(rhs@).fits() ==> r == Err::<
                Self,
                FractionError,
            >(FractionError::OutOfRange),
            self@.valid() && rhs@.valid() && self@.product(rhs@).fits() ==> r.is_ok()
                && r.unwrap()@ == self@.product(rhs@),
            r.is_ok() ==> r.unwrap()@.valid() && r.unwrap()@.lowest_terms()
                && r.unwrap()@.same_value(self@.raw_product(rhs@)),
    {
        if self.denom == 0 || rhs.denom == 0 {
            return Err(FractionError::ZeroDenominator);
        }
        let n: u128 = wide_product(self.num, rhs.num);
        let d: u128 = wide_product(self.denom, rhs.denom);
        proof {
            assert(self.denom * rhs.denom != 0) by (nonlinear_arith)
                requires
                    self.denom != 0,
                    rhs.denom != 0,
            ;
            law_reduce_lowest_terms(self@.raw_product(rhs@));
            law_reduce_preserves_value(self@.raw_product(rhs@));
        }
        reduce_wide(n, d)
    }

    /// The quotient, in lowest terms: the product with the reciprocal. Only
    /// the reduced quotient has to fit in 64 bits.
    pub fn const_div(self, rhs: Self) -> (r: Self)
        requires
            self@.valid(),
            rhs@.valid(),
            rhs.num != 0,
            self@.quotient(rhs@).fits(),
        ensures
            r@ == self@.quotient(rhs@),
            r@.valid(),
            r@.lowest_terms(),
            r@.same_value(self@.raw_product(rhs@.reciprocal())),
    {
        self.const_mul(rhs.const_invert())
    }

    /// The quotient, in lowest terms, unless an operand has a zero
    /// denominator, the divisor is zero, or the reduced quotient does not
    /// fit in 64 bits.
    pub fn try_div(self, rhs: Self) -> (r: Result<Self, FractionError>)
        ensures
            !self@.valid() || !rhs@.valid() || rhs.num == 0 ==> r == Err::<Self, FractionError>(
                FractionError::ZeroDenominator,
            ),
            self@.valid() && rhs@.valid() && rhs.num != 0 && !self@.quotient(rhs@).fits() ==> r
                == Err::<Self, FractionError>(FractionError::OutOfRange),
            self@.valid() && rhs@.valid() && rhs.num != 0 && self@.quotient(rhs@).fits()
                ==> r.is_ok() && r.unwrap()@ == self@.quotient(rhs@),
            r.is_ok() ==> r.unwrap()@.valid() && r.unwrap()@.lowest_terms()
                && r.unwrap()@.same_value(self@.raw_product(rhs@.reciprocal())),
    {
        match rhs.try_invert() {
            Ok(inverse) => self.try_mul(inverse),
            Err(e) => Err(e),
        }
    }

    /// The integer part: the quotient of numerator by denominator, the
    /// remainder dropped.
    pub fn const_truncate(self) -> (r: u64)
        requires
            self@.valid(),
        ensures
            r == self@.truncate(),
            r * self.denom <= self.num < (r + 1) * self.denom,
    {
        proof {
            vstd::arithmetic::div_mod::lemma_fundamental_div_mod(
                self.num as int,
                self.denom as int,
            );
            let q = self.num as int / self.denom as int;
            let m = self.num as int % self.denom as int;
            assert(q * self.denom <= self.num < (q + 1) * self.denom) by (nonlinear_arith)
                requires
                    self.num == self.denom * q + m,
                    0 <= m < self.denom,
            ;
        }
        self.num / self.denom
    }

    /// The order of this fraction and any fraction or whole number, decided
    /// exactly by cross-multiplication.
    pub fn compare<R: Fractional>(&self, other: &R) -> (r: Ordering)
        requires
            self@.valid(),
            other.ratio().valid(),
        ensures
            r == self@.compare(other.ratio()),
    {
        let left: u128 = wide_product(self.num, other.denom());
        let right: u128 = wide_product(other.num(), self.denom);
        if left < right {
            Ordering::Less
        } else if left == right {
            Ordering::Equal
        } else {
            Ordering::Greater
        }
    }
}

impl<R: Fractional> PartialEq<R> for Fraction<u64> {
    /// Whether both denote the same rational number. A value with a zero
    /// denominator denotes none and equals nothing.
    fn eq(&self, other: &R) -> (r: bool) {
        self.denom != 0 && other.denom() != 0 && wide_product(self.num, other.denom())
            == wide_product(other.num(), self.denom)
    }
}

impl<R: Fractional> vstd::std_specs::cmp::PartialEqSpecImpl<R> for Fraction<u64> {
    open spec fn obeys_eq_spec() -> bool {
        true
    }

    open spec fn eq_spec(&self, other: &R) -> bool {
        self@.valid() && other.ratio().valid() && self@.same_value(other.ratio())
    }
}

impl<R: Fractional> PartialOrd<R> for Fraction<u64> {
    /// The order of the two rational numbers. A value with a zero
    /// denominator denotes none and has no order.
    fn partial_cmp(&self, other: &R) -> (r: Option<Ordering>) {
        if self.denom == 0 || other.denom() == 0 {
            None
        } else {
            Some(self.compare(other))
        }
    }
}

impl<R: Fractional> vstd::std_specs::cmp::PartialOrdSpecImpl<R> for Fraction<u64> {
    open spec fn obeys_partial_cmp_spec() -> bool {
        true
    }

    open spec fn partial_cmp_spec(&self, other: &R) -> Option<Ordering> {
        if self@.valid() && other.ratio().valid() {
            Some(self@.compare(other.ratio()))
        } else {
            None
        }
    }
}

} // verus!
