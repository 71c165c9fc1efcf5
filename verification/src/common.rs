//! Greatest common divisors of natural numbers: the mathematical definition,
//! the facts the rest of the crate relies on, and Euclid's algorithm.
use vstd::arithmetic::div_mod::lemma_fundamental_div_mod;
use vstd::arithmetic::div_mod::lemma_mod_multiples_basic;
use vstd::arithmetic::div_mod::lemma_truncate_middle;
use vstd::prelude::*;

verus! {

/// `d` divides `n`: `n` is a multiple of `d`. Zero divides only zero.
pub open spec fn divides(d: nat, n: nat) -> bool {
    if d == 0 {
        n == 0
    } else {
        n % d == 0
    }
}

/// `d` divides both `a` and `b`.
pub open spec fn common_divisor(d: nat, a: nat, b: nat) -> bool {
    divides(d, a) && divides(d, b)
}

/// `g` is a common divisor of `a` and `b` that every common divisor divides.
/// For `a == b == 0` this is `0`; otherwise it is the largest common divisor.
pub open spec fn is_gcd(g: nat, a: nat, b: nat) -> bool {
    &&& common_divisor(g, a, b)
    &&& forall|d: nat| #[trigger] common_divisor(d, a, b) ==> divides(d, g)
}

/// Euclid's recursion: `gcd(0, b) = b`, `gcd(a, 0) = a`, otherwise
/// `gcd(a, b) = gcd(b, a mod b)`.
pub open spec fn gcd_spec(a: nat, b: nat) -> nat
    decreases b,
{
    if a == 0 {
        b
    } else if b == 0 {
        a
    } else {
        gcd_spec(b, a % b)
    }
}

/// `a` and `b` share no divisor but one.
pub open spec fn coprime(a: nat, b: nat) -> bool {
    gcd_spec(a, b) == 1
}

/// Every multiple of `d` is divisible by `d`.
pub proof fn lemma_multiple_divisible(d: nat, k: int)
    requires
        d * k >= 0,
    ensures
        divides(d, (d * k) as nat),
{
    if d == 0 {
        assert(d * k == 0) by (nonlinear_arith)
            requires
                d == 0,
        ;
    } else {
        lemma_mod_multiples_basic(k, d as int);
        assert(d * k == k * d) by (nonlinear_arith);
    }
}

/// A number that a positive `d` divides is `d` times the quotient.
pub proof fn lemma_divisible_quotient(d: nat, n: nat)
    requires
        d > 0,
        divides(d, n),
    ensures
        n == d * (n / d),
{
    lemma_fundamental_div_mod(n as int, d as int);
}

/// A divisor of a positive number is positive and no larger than it.
pub proof fn lemma_divisor_bound(d: nat, n: nat)
    requires
        divides(d, n),
        n > 0,
    ensures
        0 < d <= n,
{
    lemma_divisible_quotient(d, n);
    let q = n / d;
    assert(d <= n) by (nonlinear_arith)
        requires
            n == d * q,
            n > 0,
            d > 0,
    ;
}

/// Two naturals that divide each other are equal.
pub proof fn lemma_divides_antisymmetric(x: nat, y: nat)
    requires
        divides(x, y),
        divides(y, x),
    ensures
        x == y,
{
    if x > 0 && y > 0 {
        lemma_divisor_bound(x, y);
        lemma_divisor_bound(y, x);
    }
}

/// A common divisor of `x` and `r` divides `x * q + r`.
pub proof fn lemma_divides_combination(d: nat, x: nat, q: nat, r: nat)
    requires
        divides(d, x),
        divides(d, r),
    ensures
        divides(d, x * q + r),
{
    if d == 0 {
        assert(x * q + r == 0) by (nonlinear_arith)
            requires
                x == 0,
                r == 0,
        ;
    } else {
        lemma_divisible_quotient(d, x);
        lemma_divisible_quotient(d, r);
        let kx = x / d;
        let kr = r / d;
        assert(x * q + r == d * (kx * q + kr)) by (nonlinear_arith)
            requires
                x == d * kx,
                r == d * kr,
        ;
        lemma_multiple_divisible(d, (kx * q + kr) as int);
    }
}

/// A common divisor of `a` and a positive `b` divides the remainder `a % b`.
pub proof fn lemma_divides_remainder(d: nat, a: nat, b: nat)
    requires
        divides(d, a),
        divides(d, b),
        b > 0,
    ensures
        divides(d, a % b),
{
    lemma_divisor_bound(d, b);
    lemma_divisible_quotient(d, a);
    lemma_divisible_quotient(d, b);
    lemma_fundamental_div_mod(a as int, b as int);
    let ka = a / d;
    let kb = b / d;
    let q = a / b;
    let r = a % b;
    let m: int = ka - kb * q;
    assert(r == d * m) by (nonlinear_arith)
        requires
            a == d * ka,
            b == d * kb,
            a == b * q + r,
            m == ka - kb * q,
    ;
    lemma_multiple_divisible(d, m);
}

/// The greatest common divisor divides both of its arguments.
pub proof fn lemma_gcd_divides_both(a: nat, b: nat)
    ensures
        common_divisor(gcd_spec(a, b), a, b),
    decreases b,
{
    if a != 0 && b != 0 {
        let g = gcd_spec(b, a % b);
        lemma_gcd_divides_both(b, a % b);
        lemma_fundamental_div_mod(a as int, b as int);
        lemma_divides_combination(g, b, a / b, a % b);
    }
}

/// Every common divisor of `a` and `b` divides their greatest common divisor.
pub proof fn lemma_gcd_is_greatest(a: nat, b: nat, d: nat)
    requires
        common_divisor(d, a, b),
    ensures
        divides(d, gcd_spec(a, b)),
    decreases b,
{
    if a != 0 && b != 0 {
        lemma_divides_remainder(d, a, b);
        lemma_gcd_is_greatest(b, a % b, d);
    }
}

/// The recursion computes a greatest common divisor.
pub proof fn lemma_gcd_spec_is_gcd(a: nat, b: nat)
    ensures
        is_gcd(gcd_spec(a, b), a, b),
{
    lemma_gcd_divides_both(a, b);
    assert forall|d: nat| #[trigger] common_divisor(d, a, b) implies divides(d, gcd_spec(a, b)) by {
        lemma_gcd_is_greatest(a, b, d);
    }
}

/// There is only one greatest common divisor: a number that divides both
/// arguments and is divided by every common divisor is the one that the
/// recursion computes.
pub proof fn law_gcd_unique(g: nat, a: nat, b: nat)
    requires
        is_gcd(g, a, b),
    ensures
        g == gcd_spec(a, b),
{
    let h = gcd_spec(a, b);
    lemma_gcd_spec_is_gcd(a, b);
    assert(common_divisor(g, a, b));
    assert(common_divisor(h, a, b));
    lemma_divides_antisymmetric(g, h);
}

/// Unless both arguments are zero, the greatest common divisor is positive.
pub proof fn lemma_gcd_positive(a: nat, b: nat)
    requires
        a != 0 || b != 0,
    ensures
        gcd_spec(a, b) > 0,
{
    lemma_gcd_divides_both(a, b);
}

/// Scaling both arguments by `k` scales the greatest common divisor by `k`.
pub proof fn lemma_gcd_scales(a: nat, b: nat, k: nat)
    ensures
        gcd_spec(a * k, b * k) == gcd_spec(a, b) * k,
    decreases b,
{
    if k == 0 {
        assert(a * k == 0 && b * k == 0 && gcd_spec(a, b) * k == 0) by (nonlinear_arith)
            requires
                k == 0,
        ;
    } else if a == 0 {
        assert(a * k == 0) by (nonlinear_arith)
            requires
                a == 0,
        ;
    } else if b == 0 {
        assert(b * k == 0 && a * k > 0) by (nonlinear_arith)
            requires
                b == 0,
                a > 0,
                k > 0,
        ;
    } else {
        assert(a * k > 0 && b * k > 0) by (nonlinear_arith)
            requires
                a > 0,
                b > 0,
                k > 0,
        ;
        lemma_truncate_middle(a as int, k as int, b as int);
        assert(k * a == a * k && k * b == b * k && k * (a % b) == (a % b) * k)
            by (nonlinear_arith);
        assert((a * k) % (b * k) == (a % b) * k);
        lemma_gcd_scales(b, a % b, k);
    }
}

/// Euclid's lemma: if `y` divides `x * v` and shares no factor with `x`,
/// then `y` divides `v`.
pub proof fn lemma_coprime_divides(x: nat, y: nat, v: nat)
    requires
        coprime(x, y),
        divides(y, x * v),
    ensures
        divides(y, v),
{
    lemma_gcd_scales(x, y, v);
    assert(gcd_spec(x, y) * v == v) by (nonlinear_arith)
        requires
            gcd_spec(x, y) == 1,
    ;
    lemma_multiple_divisible(y, v as int);
    lemma_gcd_is_greatest(x * v, y * v, y);
}

/// The greatest common divisor divides both arguments, and every common
/// divisor divides it. Unless both arguments are zero, it is positive and
/// no common divisor is larger.
pub proof fn law_gcd_greatest_common_divisor(a: nat, b: nat)
    ensures
        common_divisor(gcd_spec(a, b), a, b),
        forall|d: nat| #[trigger] common_divisor(d, a, b) ==> divides(d, gcd_spec(a, b)),
        a != 0 || b != 0 ==> gcd_spec(a, b) > 0 && forall|d: nat| #[trigger]
            common_divisor(d, a, b) ==> d <= gcd_spec(a, b),
{
    lemma_gcd_spec_is_gcd(a, b);
    if a != 0 || b != 0 {
        lemma_gcd_positive(a, b);
        assert forall|d: nat| #[trigger] common_divisor(d, a, b) implies d <= gcd_spec(a, b) by {
            lemma_divisor_bound(d, gcd_spec(a, b));
        }
    }
}

/// Euclid's algorithm on 64-bit naturals.
pub fn gcd(lhs: u64, rhs: u64) -> (g: u64)
    ensures
        g == gcd_spec(lhs as nat, rhs as nat),
        is_gcd(g as nat, lhs as nat, rhs as nat),
        lhs != 0 || rhs != 0 ==> g > 0,
    decreases rhs,
{
    proof {
        lemma_gcd_spec_is_gcd(lhs as nat, rhs as nat);
        if lhs != 0 || rhs != 0 {
            lemma_gcd_positive(lhs as nat, rhs as nat);
        }
    }
    if lhs == 0 {
        rhs
    } else if rhs == 0 {
        lhs
    } else {
        gcd(rhs, lhs % rhs)
    }
}

/// Naturals of a fixed width of which a greatest common divisor can be taken.
pub trait GreatestCommon<RHS = Self>: Sized {
    /// The type of the divisor.
    type Output;

    /// What `greatest_common` returns.
    spec fn greatest_common_spec(self, rhs: RHS) -> Self::Output;

    /// The greatest common divisor of `self` and `rhs`.
    fn greatest_common(self, rhs: RHS) -> (g: Self::Output)
        ensures
            g == self.greatest_common_spec(rhs),
    ;
}

impl GreatestCommon<u64> for u64 {
    type Output = u64;

    open spec fn greatest_common_spec(self, rhs: u64) -> u64 {
        gcd_spec(self as nat, rhs as nat) as u64
    }

    fn greatest_common(self, rhs: u64) -> (g: u64)
        ensures
            g == gcd_spec(self as nat, rhs as nat),
    {
        gcd(self, rhs)
    }
}

impl GreatestCommon<u128> for u128 {
    type Output = u128;

    open spec fn greatest_common_spec(self, rhs: u128) -> u128 {
        gcd_spec(self as nat, rhs as nat) as u128
    }

    fn greatest_common(self, rhs: u128) -> (g: u128)
        ensures
            g == gcd_spec(self as nat, rhs as nat),
    {
        if self == 0 {
            return rhs;
        }
        let mut a: u128 = self;
        let mut b: u128 = rhs;
        while b != 0
            invariant
                a != 0,
                gcd_spec(a as nat, b as nat) == gcd_spec(self as nat, rhs as nat),
            decreases b,
        {
            let r: u128 = a % b;
            a = b;
            b = r;
        }
        a
    }
}

} // verus!
