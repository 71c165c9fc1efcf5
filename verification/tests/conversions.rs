use fractional::consts::ConstFraction;
use fractional::consts::Fraction;
use fractional::convert;
use fractional::Conditional;
use fractional::Convert;
use fractional::FractionError;
use fractional::ToPrimitive;

fn whole(n: u64) -> ConstFraction {
    Fraction::const_from_scalar(n)
}

#[test]
fn fraction_over_one_converts_to_its_numerator() {
    let n: u64 = Convert::<convert::UInt>::convert(Fraction::new(33, 1));
    assert_eq!(n, 33);
}

#[test]
fn natural_converts_to_fraction_over_one() {
    let f: ConstFraction = Convert::<convert::Fraction>::convert(33u64);
    assert_eq!((f.num, f.denom), (33, 1));
}

#[test]
fn unsigned_targets_accept_up_to_their_maximum() {
    assert_eq!(ToPrimitive::<u8>::value(&whole(255)), Ok(255u8));
    assert_eq!(ToPrimitive::<u8>::value(&whole(256)), Err(FractionError::OutOfRange));
    assert_eq!(ToPrimitive::<u16>::value(&whole(65535)), Ok(65535u16));
    assert_eq!(ToPrimitive::<u16>::value(&whole(65536)), Err(FractionError::OutOfRange));
    assert_eq!(ToPrimitive::<u32>::value(&whole(4294967295)), Ok(4294967295u32));
    assert_eq!(ToPrimitive::<u32>::value(&whole(4294967296)), Err(FractionError::OutOfRange));
    assert_eq!(ToPrimitive::<u64>::value(&whole(u64::MAX)), Ok(u64::MAX));
    assert_eq!(ToPrimitive::<usize>::value(&whole(4096)), Ok(4096usize));
}

#[test]
fn signed_targets_accept_up_to_their_maximum() {
    assert_eq!(ToPrimitive::<i8>::value(&whole(127)), Ok(127i8));
    assert_eq!(ToPrimitive::<i8>::value(&whole(128)), Err(FractionError::OutOfRange));
    assert_eq!(ToPrimitive::<i16>::value(&whole(32767)), Ok(32767i16));
    assert_eq!(ToPrimitive::<i16>::value(&whole(32768)), Err(FractionError::OutOfRange));
    assert_eq!(ToPrimitive::<i32>::value(&whole(2147483647)), Ok(2147483647i32));
    assert_eq!(ToPrimitive::<i32>::value(&whole(2147483648)), Err(FractionError::OutOfRange));
    assert_eq!(ToPrimitive::<i64>::value(&whole(9223372036854775807)), Ok(i64::MAX));
    assert_eq!(
        ToPrimitive::<i64>::value(&whole(9223372036854775808)),
        Err(FractionError::OutOfRange)
    );
    assert_eq!(ToPrimitive::<isize>::value(&whole(4096)), Ok(4096isize));
    assert_eq!(ToPrimitive::<isize>::value(&whole(u64::MAX)), Err(FractionError::OutOfRange));
}

#[test]
fn zero_converts_to_every_integer_type() {
    assert_eq!(ToPrimitive::<u8>::value(&whole(0)), Ok(0u8));
    assert_eq!(ToPrimitive::<i8>::value(&whole(0)), Ok(0i8));
    assert_eq!(ToPrimitive::<u64>::value(&whole(0)), Ok(0u64));
    assert_eq!(ToPrimitive::<isize>::value(&whole(0)), Ok(0isize));
}

#[test]
fn a_denominator_other_than_one_is_no_integer() {
    assert_eq!(ToPrimitive::<u8>::value(&Fraction::new(33, 4)), Err(FractionError::NotIntegral));
    assert_eq!(ToPrimitive::<u64>::value(&Fraction::new(4, 2)), Err(FractionError::NotIntegral));
    assert_eq!(ToPrimitive::<i32>::value(&Fraction::new(0, 2)), Err(FractionError::NotIntegral));
    assert_eq!(ToPrimitive::<u8>::value(&Fraction::new(1000, 3)), Err(FractionError::NotIntegral));
    let broken = Fraction { num: 1u64, denom: 0u64 };
    assert_eq!(ToPrimitive::<u16>::value(&broken), Err(FractionError::NotIntegral));
}

#[test]
fn bare_naturals_convert_like_fractions_over_one() {
    assert_eq!(ToPrimitive::<u8>::value(&200u64), Ok(200u8));
    assert_eq!(ToPrimitive::<i8>::value(&200u64), Err(FractionError::OutOfRange));
    assert_eq!(ToPrimitive::<u32>::value(&7u64), Ok(7u32));
}

#[test]
fn plain_fraction_of_any_fractional_value() {
    let f: Result<ConstFraction, FractionError> = ToPrimitive::value(&Fraction::new(6, 4));
    assert_eq!(f.map(|f| (f.num, f.denom)), Ok((6, 4)));
    let n: Result<ConstFraction, FractionError> = ToPrimitive::value(&9u64);
    assert_eq!(n.map(|f| (f.num, f.denom)), Ok((9, 1)));
    let broken = Fraction { num: 1u64, denom: 0u64 };
    let b: Result<ConstFraction, FractionError> = ToPrimitive::value(&broken);
    assert_eq!(b.err(), Some(FractionError::ZeroDenominator));
}

#[test]
fn condition_selects_first_or_second() {
    assert_eq!(true.select(1u8, 2u8), 1);
    assert_eq!(false.select(1u8, 2u8), 2);
    assert_eq!(true.select("yes", "no"), "yes");
}
