use fractional::common::gcd;
use fractional::GreatestCommon;

#[test]
fn gcd_of_zero_and_zero_is_zero() {
    assert_eq!(gcd(0, 0), 0);
}

#[test]
fn gcd_with_zero_is_the_other_argument() {
    assert_eq!(gcd(0, 17), 17);
    assert_eq!(gcd(17, 0), 17);
    assert_eq!(gcd(0, u64::MAX), u64::MAX);
}

#[test]
fn gcd_divides_both_arguments() {
    let pairs: [(u64, u64); 6] =
        [(12, 18), (18, 12), (17, 5), (1 << 40, 1 << 20), (u64::MAX, 255), (1071, 462)];
    for (a, b) in pairs {
        let g = gcd(a, b);
        assert!(g > 0);
        assert_eq!(a % g, 0);
        assert_eq!(b % g, 0);
    }
}

#[test]
fn gcd_is_the_largest_common_divisor() {
    for a in 1u64..40 {
        for b in 1u64..40 {
            let g = gcd(a, b);
            for d in 1u64..40 {
                if a % d == 0 && b % d == 0 {
                    assert!(d <= g);
                    assert_eq!(g % d, 0);
                }
            }
        }
    }
}

#[test]
fn gcd_exact_values() {
    assert_eq!(gcd(1071, 462), 21);
    assert_eq!(gcd(462, 1071), 21);
    assert_eq!(gcd(60, 2), 2);
    assert_eq!(gcd(33, 4), 1);
    assert_eq!(gcd(u64::MAX, u64::MAX), u64::MAX);
    assert_eq!(gcd(1 << 63, 1 << 62), 1 << 62);
}

#[test]
fn greatest_common_on_64_bits_is_gcd() {
    assert_eq!(4u64.greatest_common(6u64), 2);
    assert_eq!(0u64.greatest_common(9u64), 9);
    assert_eq!(9u64.greatest_common(0u64), 9);
    assert_eq!(0u64.greatest_common(0u64), 0);
}

#[test]
fn greatest_common_on_128_bits() {
    assert_eq!(4u128.greatest_common(6u128), 2);
    assert_eq!(0u128.greatest_common(9u128), 9);
    assert_eq!(9u128.greatest_common(0u128), 9);
    assert_eq!(0u128.greatest_common(0u128), 0);
    assert_eq!((1u128 << 80).greatest_common(1u128 << 40), 1u128 << 40);
    assert_eq!((1u128 << 40).greatest_common(1u128 << 80), 1u128 << 40);
    assert_eq!(u128::MAX.greatest_common(u128::MAX), u128::MAX);
    assert_eq!(1071u128.greatest_common(462u128), 21);
}

#[test]
fn greatest_common_agrees_across_widths() {
    for a in 0u64..30 {
        for b in 0u64..30 {
            assert_eq!(u128::from(gcd(a, b)), u128::from(a).greatest_common(u128::from(b)));
        }
    }
}
