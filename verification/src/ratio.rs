//! The mathematical model of a fraction: a pair of natural numbers, with the
//! operations on it and the laws they obey. Executable fractions are
//! specified by their view into this model.
use crate::common::common_divisor;
use crate::common::coprime;
use crate::common::gcd_spec;
use crate::common::lemma_coprime_divides;
use crate::common::lemma_divides_antisymmetric;
use crate::common::lemma_divisible_quotient;
use crate::common::lemma_divisor_bound;
use crate::common::lemma_gcd_divides_both;
use crate::common::lemma_gcd_is_greatest;
use crate::common::lemma_gcd_positive;
use crate::common::lemma_multiple_divisible;
use core::cmp::Ordering;
use vstd::prelude::*;

verus! {

/// The ratio `num / denom` of two natural numbers.
pub struct Ratio {
    pub num: nat,
    pub denom: nat,
}

impl Ratio {
    /// The denominator is not zero.
    pub open spec fn valid(self) -> bool {
        self.denom != 0
    }

    /// Numerator and denominator share no factor.
    pub open spec fn lowest_terms(self) -> bool {
        coprime(self.num, self.denom)
    }

    /// Both parts fit in 64 bits.
    pub open spec fn fits(self) -> bool {
        self.num <= u64::MAX && self.denom <= u64::MAX
    }

    /// The natural number `n` as the ratio `n / 1`.
    pub open spec fn whole(n: nat) -> Ratio {
        Ratio { num: n, denom: 1 }
    }

    /// Both parts divided by their greatest common divisor.
    pub open spec fn reduce(self) -> Ratio {
        Ratio {
            num: self.num / gcd_spec(self.num, self.denom),
            denom: self.denom / gcd_spec(self.num, self.denom),
        }
    }

    /// The product of numerators over the product of denominators, as written.
    pub open spec fn raw_product(self, rhs: Ratio) -> Ratio {
        Ratio { num: self.num * rhs.num, denom: self.denom * rhs.denom }
    }

    /// The product in lowest terms.
    pub open spec fn product(self, rhs: Ratio) -> Ratio {
        self.raw_product(rhs).reduce()
    }

    /// Numerator and denominator exchanged.
    pub open spec fn reciprocal(self) -> Ratio {
        Ratio { num: self.denom, denom: self.num }
    }

    /// The quotient in lowest terms: the product with the reciprocal.
    pub open spec fn quotient(self, rhs: Ratio) -> Ratio {
        self.product(rhs.reciprocal())
    }

    /// The integer part.
    pub open spec fn truncate(self) -> nat {
        self.num / self.denom
    }

    /// Both ratios denote the same rational number.
    pub open spec fn same_value(self, other: Ratio) -> bool {
        self.num * other.denom == other.num * self.denom
    }

    /// This ratio denotes a smaller rational number than `other`.
    pub open spec fn less_than(self, other: Ratio) -> bool {
        self.num * other.denom < other.num * self.denom
    }

    /// The order of the two rational numbers, by cross-multiplication.
    pub open spec fn compare(self, other: Ratio) -> Ordering {
        if self.less_than(other) {
            Ordering::Less
        } else if self.same_value(other) {
            Ordering::Equal
        } else {
            Ordering::Greater
        }
    }
}

/// Reducing a valid ratio gives a valid ratio in lowest terms.
pub proof fn law_reduce_lowest_terms(f: Ratio)
    requires
        f.valid(),
    ensures
        f.reduce().valid(),
        f.reduce().lowest_terms(),
{
    let g = gcd_spec(f.num, f.denom);
    lemma_gcd_positive(f.num, f.denom);
    lemma_gcd_divides_both(f.num, f.denom);
    lemma_divisible_quotient(g, f.num);
    lemma_divisible_quotient(g, f.denom);
    let x = f.num / g;
    let y = f.denom / g;
    assert(y > 0) by (nonlinear_arith)
        requires
            f.denom == g * y,
            f.denom > 0,
    ;
    let h = gcd_spec(x, y);
    lemma_gcd_positive(x, y);
    lemma_gcd_divides_both(x, y);
    lemma_divisible_quotient(h, x);
    lemma_divisible_quotient(h, y);
    let p = x / h;
    let q = y / h;
    assert(f.num == (g * h) * p && f.denom == (g * h) * q && g * h > 0) by (nonlinear_arith)
        requires
            f.num == g * x,
            f.denom == g * y,
            x == h * p,
            y == h * q,
            g > 0,
            h > 0,
    ;
    lemma_multiple_divisible(g * h, p as int);
    lemma_multiple_divisible(g * h, q as int);
    assert(common_divisor(g * h, f.num, f.denom));
    lemma_gcd_is_greatest(f.num, f.denom, g * h);
    lemma_divisor_bound(g * h, g);
    assert(h == 1) by (nonlinear_arith)
        requires
            g * h <= g,
            g > 0,
            h > 0,
    ;
}

/// Reducing a valid ratio does not change the rational number it denotes.
pub proof fn law_reduce_preserves_value(f: Ratio)
    requires
        f.valid(),
    ensures
        f.reduce().same_value(f),
{
    let g = gcd_spec(f.num, f.denom);
    lemma_gcd_positive(f.num, f.denom);
    lemma_gcd_divides_both(f.num, f.denom);
    lemma_divisible_quotient(g, f.num);
    lemma_divisible_quotient(g, f.denom);
    let x = f.num / g;
    let y = f.denom / g;
    assert(x * f.denom == f.num * y) by (nonlinear_arith)
        requires
            f.num == g * x,
            f.denom == g * y,
    ;
}

/// Reducing a valid ratio makes neither part larger, so the reduction fits
/// wherever the ratio does.
pub proof fn law_reduce_never_grows(f: Ratio)
    requires
        f.valid(),
    ensures
        f.reduce().num <= f.num,
        f.reduce().denom <= f.denom,
        f.fits() ==> f.reduce().fits(),
{
    let g = gcd_spec(f.num, f.denom);
    lemma_gcd_positive(f.num, f.denom);
    lemma_gcd_divides_both(f.num, f.denom);
    lemma_divisible_quotient(g, f.num);
    lemma_divisible_quotient(g, f.denom);
    let x = f.num / g;
    let y = f.denom / g;
    assert(x <= f.num && y <= f.denom) by (nonlinear_arith)
        requires
            f.num == g * x,
            f.denom == g * y,
            g > 0,
    ;
}

/// A ratio in lowest terms is its own reduction.
pub proof fn law_reduce_fixes_lowest_terms(f: Ratio)
    requires
        f.lowest_terms(),
    ensures
        f.reduce() == f,
{
}

/// Reducing twice is reducing once.
pub proof fn law_reduce_idempotent(f: Ratio)
    requires
        f.valid(),
    ensures
        f.reduce().reduce() == f.reduce(),
{
    law_reduce_lowest_terms(f);
    law_reduce_fixes_lowest_terms(f.reduce());
}

/// Two valid ratios denote the same rational number exactly when their
/// reductions are the same pair.
pub proof fn law_same_value_iff_same_reduction(a: Ratio, b: Ratio)
    requires
        a.valid(),
        b.valid(),
    ensures
        a.same_value(b) <==> a.reduce() == b.reduce(),
{
    let ga = gcd_spec(a.num, a.denom);
    let gb = gcd_spec(b.num, b.denom);
    lemma_gcd_positive(a.num, a.denom);
    lemma_gcd_positive(b.num, b.denom);
    lemma_gcd_divides_both(a.num, a.denom);
    lemma_gcd_divides_both(b.num, b.denom);
    lemma_divisible_quotient(ga, a.num);
    lemma_divisible_quotient(ga, a.denom);
    lemma_divisible_quotient(gb, b.num);
    lemma_divisible_quotient(gb, b.denom);
    let x = a.num / ga;
    let y = a.denom / ga;
    let u = b.num / gb;
    let v = b.denom / gb;
    law_reduce_lowest_terms(a);
    law_reduce_lowest_terms(b);
    if a.reduce() == b.reduce() {
        assert(a.num * b.denom == b.num * a.denom) by (nonlinear_arith)
            requires
                a.num == ga * x,
                a.denom == ga * y,
                b.num == gb * x,
                b.denom == gb * y,
        ;
    }
    if a.same_value(b) {
        assert(x * v == u * y) by (nonlinear_arith)
            requires
                a.num == ga * x,
                a.denom == ga * y,
                b.num == gb * u,
                b.denom == gb * v,
                a.num * b.denom == b.num * a.denom,
                ga > 0,
                gb > 0,
        ;
        assert(x * v == y * u && u * y == v * x) by (nonlinear_arith)
            requires
                x * v == u * y,
        ;
        lemma_multiple_divisible(y, u as int);
        lemma_coprime_divides(x, y, v);
        lemma_multiple_divisible(v, x as int);
        lemma_coprime_divides(u, v, y);
        lemma_divides_antisymmetric(y, v);
        assert(x == u) by (nonlinear_arith)
            requires
                x * v == u * v,
                v > 0,
        ;
    }
}

/// A rational number has only one valid ratio in lowest terms: being valid,
/// in lowest terms and of the same value as `f` is being `f.reduce()`.
pub proof fn law_lowest_terms_unique(a: Ratio, b: Ratio)
    requires
        a.valid(),
        b.valid(),
        a.lowest_terms(),
        b.lowest_terms(),
        a.same_value(b),
    ensures
        a == b,
{
    law_same_value_iff_same_reduction(a, b);
    law_reduce_fixes_lowest_terms(a);
    law_reduce_fixes_lowest_terms(b);
}

/// Exactly one of the three orders holds between two ratios, and exchanging
/// the operands mirrors it.
pub proof fn law_compare_antisymmetric(a: Ratio, b: Ratio)
    ensures
        a.compare(b) == Ordering::Less <==> b.compare(a) == Ordering::Greater,
        a.compare(b) == Ordering::Equal <==> b.compare(a) == Ordering::Equal,
        a.compare(b) == Ordering::Greater <==> b.compare(a) == Ordering::Less,
{
}

/// Two valid ratios compare as equal exactly when they denote the same
/// rational number, that is, when their reductions are the same pair.
pub proof fn law_compare_equal_iff_same_reduction(a: Ratio, b: Ratio)
    requires
        a.valid(),
        b.valid(),
    ensures
        a.compare(b) == Ordering::Equal <==> a.reduce() == b.reduce(),
{
    law_same_value_iff_same_reduction(a, b);
}

/// The order is transitive on valid ratios, and strict as soon as one of
/// the two steps is.
pub proof fn law_compare_transitive(a: Ratio, b: Ratio, c: Ratio)
    requires
        a.valid(),
        b.valid(),
        c.valid(),
        a.compare(b) != Ordering::Greater,
        b.compare(c) != Ordering::Greater,
    ensures
        a.compare(c) != Ordering::Greater,
        a.compare(b) == Ordering::Less || b.compare(c) == Ordering::Less ==> a.compare(c)
            == Ordering::Less,
{
    lemma_cross_order_transitive(a.num, a.denom, b.num, b.denom, c.num, c.denom);
}

/// The arithmetic behind the transitivity of the order.
proof fn lemma_cross_order_transitive(an: nat, ad: nat, bn: nat, bd: nat, cn: nat, cd: nat)
    requires
        ad > 0,
        bd > 0,
        cd > 0,
        an * bd <= bn * ad,
        bn * cd <= cn * bd,
    ensures
        an * cd <= cn * ad,
        an * bd < bn * ad || bn * cd < cn * bd ==> an * cd < cn * ad,
{
    assert((an * cd) * bd <= (cn * ad) * bd) by (nonlinear_arith)
        requires
            an * bd <= bn * ad,
            bn * cd <= cn * bd,
            ad > 0,
            cd > 0,
    {
        assert((an * bd) * cd <= (bn * ad) * cd);
        assert((bn * cd) * ad <= (cn * bd) * ad);
    }
    assert(an * cd <= cn * ad) by (nonlinear_arith)
        requires
            (an * cd) * bd <= (cn * ad) * bd,
            bd > 0,
    ;
    if an * bd < bn * ad || bn * cd < cn * bd {
        assert((an * cd) * bd < (cn * ad) * bd) by (nonlinear_arith)
            requires
                an * bd <= bn * ad,
                bn * cd <= cn * bd,
                an * bd < bn * ad || bn * cd < cn * bd,
                ad > 0,
                cd > 0,
        {
            assert((an * bd) * cd <= (bn * ad) * cd);
            assert((bn * cd) * ad <= (cn * bd) * ad);
            if an * bd < bn * ad {
                assert((an * bd) * cd < (bn * ad) * cd);
            } else {
                assert((bn * cd) * ad < (cn * bd) * ad);
            }
        }
        assert(an * cd < cn * ad) by (nonlinear_arith)
            requires
                (an * cd) * bd < (cn * ad) * bd,
                bd > 0,
        ;
    }
}

} // verus!
