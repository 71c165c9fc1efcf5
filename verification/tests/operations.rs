use fractional::consts::Fraction;
use fractional::Truncate;

#[test]
fn gcd() {
    assert_eq!(fractional::common::gcd(0, 1), 1);
    assert_eq!(fractional::common::gcd(1, 0), 1);
    assert_eq!(fractional::common::gcd(1, 1), 1);
    assert_eq!(fractional::common::gcd(1, 9), 1);
    assert_eq!(fractional::common::gcd(2, 4), 2);
    assert_eq!(fractional::common::gcd(4, 6), 2);
}

#[test]
fn fractional_ops() {
    let p = Fraction::new(1, 2) * Fraction::new(1, 4);
    assert_eq!((p.num, p.denom), (1, 8));
    let p = Fraction::new(1, 2) * Fraction::new(60, 1);
    assert_eq!((p.num, p.denom), (30, 1));
    let q = Fraction::new(1, 2) / Fraction::new(60, 1);
    assert_eq!((q.num, q.denom), (1, 120));
}

#[test]
fn scalars() {
    let p = Fraction::new(3, 4) * 11u64;
    assert_eq!((p.num, p.denom), (33, 4));
    assert_eq!(p.truncate(), 8);
}
