use std::cmp::Ordering;

use rust_decimal::Decimal;
use switchboard_feed::decimal::SwitchboardDecimal;
use switchboard_feed::error::SwitchboardError;

fn dec(mantissa: i128, scale: u32) -> SwitchboardDecimal {
    SwitchboardDecimal::new(mantissa, scale)
}

#[test]
fn rescale_truncates_toward_zero() {
    let d = dec(123, 2);
    assert_eq!(d.scale_to(1), Ok(12));
    assert_eq!(d.new_with_scale(1), Ok(dec(12, 1)));
    // 1.29 becomes 1.2, not the nearer 1.3
    assert_eq!(dec(129, 2).scale_to(1), Ok(12));
    assert_eq!(dec(-129, 2).scale_to(1), Ok(-12));
    assert_eq!(dec(-5, 1).scale_to(0), Ok(0));
}

#[test]
fn rescale_up_is_exact() {
    assert_eq!(dec(15, 1).scale_to(4), Ok(15000));
    assert_eq!(dec(-7, 0).new_with_scale(3), Ok(dec(-7000, 3)));
    assert_eq!(dec(7, 4).scale_to(4), Ok(7));
}

#[test]
fn rescale_round_trip() {
    let d = dec(-4567, 3);
    let up = d.new_with_scale(9).unwrap();
    assert_eq!(up, dec(-4567000000, 9));
    assert_eq!(up.scale_to(3), Ok(-4567));
    let z = dec(i128::MAX / 10, 0);
    let up = z.new_with_scale(1).unwrap();
    assert_eq!(up.scale_to(0), Ok(i128::MAX / 10));
}

#[test]
fn rescale_overflow_fails() {
    assert_eq!(dec(i128::MAX, 0).scale_to(1), Err(SwitchboardError::IntegerOverflowError));
    assert_eq!(dec(i128::MIN, 0).new_with_scale(1), Err(SwitchboardError::IntegerOverflowError));
    assert_eq!(dec(1, 0).scale_to(39), Err(SwitchboardError::IntegerOverflowError));
    assert_eq!(dec(1, 0).scale_to(38), Ok(100_000_000_000_000_000_000_000_000_000_000_000_000));
}

#[test]
fn rescale_extreme_scales() {
    assert_eq!(dec(0, 0).scale_to(60), Ok(0));
    assert_eq!(dec(5, 50).scale_to(0), Ok(0));
    assert_eq!(dec(i128::MIN, 38).scale_to(0), Ok(-1));
    assert_eq!(dec(i128::MIN, 60).scale_to(0), Ok(0));
}

#[test]
fn ordering_and_equality_diverge() {
    let a = dec(150, 2);
    let b = dec(15, 1);
    assert_eq!(a.try_cmp(&b), Ok(Ordering::Equal));
    assert!(a != b);
    assert_eq!(a.partial_cmp(&b), Some(Ordering::Equal));
    assert!(!(a < b));
    assert!(a <= b);
    assert!(a >= b);
}

#[test]
fn ordering_by_value() {
    assert_eq!(dec(1, 0).try_cmp(&dec(15, 1)), Ok(Ordering::Less));
    assert_eq!(dec(-1, 0).try_cmp(&dec(-15, 1)), Ok(Ordering::Greater));
    assert!(dec(1, 0) < dec(15, 1));
    assert!(dec(2, 0) > dec(15, 1));
    assert!(dec(-2, 0) < dec(-15, 1));
}

#[test]
fn ordering_of_unrepresentable_fails() {
    assert_eq!(dec(1, 29).try_cmp(&dec(1, 0)), Err(SwitchboardError::DecimalConversionError));
    assert_eq!(dec(1, 0).try_cmp(&dec(i128::MAX, 0)), Err(SwitchboardError::DecimalConversionError));
    assert_eq!(dec(1, 29).partial_cmp(&dec(1, 0)), None);
    assert!(!(dec(1, 29) < dec(1, 0)));
    assert!(!(dec(1, 29) >= dec(1, 0)));
}

#[test]
fn to_bool_rounds_half_to_even() {
    assert_eq!(dec(5, 1).to_bool(), Ok(false));
    assert_eq!(dec(-5, 1).to_bool(), Ok(false));
    assert_eq!(dec(4, 1).to_bool(), Ok(false));
    assert_eq!(dec(6, 1).to_bool(), Ok(true));
    assert_eq!(dec(-6, 1).to_bool(), Ok(true));
    assert_eq!(dec(15, 1).to_bool(), Ok(true));
    assert_eq!(dec(0, 0).to_bool(), Ok(false));
    assert_eq!(dec(3, 0).to_bool(), Ok(true));
    assert_eq!(dec(1, 29).to_bool(), Err(SwitchboardError::DecimalConversionError));
}

#[test]
fn max_mantissa_overflows_integers() {
    let d = dec(i128::MAX, 0);
    assert_eq!(d.try_into_u64(), Err(SwitchboardError::IntegerOverflowError));
    assert_eq!(d.try_into_i64(), Err(SwitchboardError::IntegerOverflowError));
}

#[test]
fn to_u64_takes_integer_part() {
    assert_eq!(dec(12345, 2).try_into_u64(), Ok(123));
    assert_eq!(dec(u64::MAX as i128, 0).try_into_u64(), Ok(u64::MAX));
    assert_eq!(dec(u64::MAX as i128 + 1, 0).try_into_u64(), Err(SwitchboardError::IntegerOverflowError));
    assert_eq!(dec(-5, 1).try_into_u64(), Err(SwitchboardError::IntegerOverflowError));
    assert_eq!(dec(1, 30).try_into_u64(), Err(SwitchboardError::DecimalConversionError));
}

#[test]
fn to_i64_takes_integer_part() {
    assert_eq!(dec(-12345, 2).try_into_i64(), Ok(-123));
    assert_eq!(dec(i64::MIN as i128, 0).try_into_i64(), Ok(i64::MIN));
    assert_eq!(dec(i64::MAX as i128, 0).try_into_i64(), Ok(i64::MAX));
    assert_eq!(dec(i64::MIN as i128 - 1, 0).try_into_i64(), Err(SwitchboardError::IntegerOverflowError));
    assert_eq!(dec(-1, 30).try_into_i64(), Err(SwitchboardError::DecimalConversionError));
}

#[test]
fn rust_decimal_conversions() {
    let d = SwitchboardDecimal::from_rust_decimal(Decimal::new(-12345, 3));
    assert_eq!(d, dec(-12345, 3));
    let back = d.to_rust_decimal().unwrap();
    assert_eq!(back.mantissa(), -12345);
    assert_eq!(back.scale(), 3);
    assert_eq!(dec(1, 29).to_rust_decimal(), Err(SwitchboardError::DecimalConversionError));
    assert_eq!(dec(1i128 << 96, 0).to_rust_decimal(), Err(SwitchboardError::DecimalConversionError));
    assert!(dec((1i128 << 96) - 1, 28).to_rust_decimal().is_ok());
}
