use switchboard_feed::decimal::SwitchboardDecimal;
use switchboard_feed::error::SwitchboardError;
use switchboard_feed::wire::BorshDecimal;
use rust_decimal::Decimal;

#[test]
fn wire_round_trip_negative() {
    let d = BorshDecimal { mantissa: -42, scale: 5 };
    let bytes = d.to_bytes();
    let mut expected = vec![0xd6u8];
    expected.extend(std::iter::repeat(0xffu8).take(15));
    expected.extend([5u8, 0, 0, 0]);
    assert_eq!(bytes, expected);
    assert_eq!(BorshDecimal::from_bytes(&bytes), Ok(d));
}

#[test]
fn wire_round_trip_extremes() {
    for m in [0i128, i128::MAX, i128::MIN, -1] {
        for s in [0u32, 28, u32::MAX] {
            let d = BorshDecimal { mantissa: m, scale: s };
            assert_eq!(BorshDecimal::from_bytes(&d.to_bytes()), Ok(d));
        }
    }
}

#[test]
fn wire_wrong_length_fails() {
    assert_eq!(BorshDecimal::from_bytes(&[0u8; 19]), Err(SwitchboardError::AccountDeserializationError));
    assert_eq!(BorshDecimal::from_bytes(&[0u8; 21]), Err(SwitchboardError::AccountDeserializationError));
    assert_eq!(BorshDecimal::from_bytes(&[]), Err(SwitchboardError::AccountDeserializationError));
}

#[test]
fn twin_conversion_is_lossless() {
    for m in [-42i128, 0, i128::MAX, i128::MIN] {
        let s = SwitchboardDecimal::new(m, 5);
        let b = BorshDecimal::from(s);
        assert_eq!(b, BorshDecimal { mantissa: m, scale: 5 });
        assert_eq!(SwitchboardDecimal::from(b), s);
    }
}

#[test]
fn wire_rust_decimal_conversions() {
    let b = BorshDecimal::from_rust_decimal(Decimal::new(987, 2));
    assert_eq!(b, BorshDecimal { mantissa: 987, scale: 2 });
    let d = b.to_rust_decimal().unwrap();
    assert_eq!(d, Decimal::new(987, 2));
    let bad = BorshDecimal { mantissa: i128::MAX, scale: 0 };
    assert_eq!(bad.to_rust_decimal(), Err(SwitchboardError::DecimalConversionError));
}
