//! The calls into `rust_decimal`, each from plain (mantissa, scale) pairs to plain
//! results, with what the crate documents of them.
use vstd::prelude::*;
use core::cmp::Ordering;
use rust_decimal::prelude::ToPrimitive;
use rust_decimal::Decimal;
use crate::decimal::{pow10, div_toward_zero};

verus! {

#[verifier::external_type_specification]
#[verifier::external_body]
pub struct ExDecimal(Decimal);

#[verifier::external_type_specification]
#[verifier::external_body]
pub struct ExDecimalError(rust_decimal::Error);

/// Largest mantissa magnitude of a `rust_decimal::Decimal` (`2^96 - 1`).
pub const DECIMAL_MAX_MANTISSA: i128 = 79228162514264337593543950335;

/// Largest scale of a `rust_decimal::Decimal`.
pub const DECIMAL_MAX_SCALE: u32 = 28;

/// Whether `mantissa * 10^(-scale)` can be held by a `rust_decimal::Decimal` as given.
pub open spec fn fits_decimal(mantissa: int, scale: nat) -> bool {
    &&& scale <= DECIMAL_MAX_SCALE
    &&& -DECIMAL_MAX_MANTISSA <= mantissa <= DECIMAL_MAX_MANTISSA
}

/// How `m1 * 10^(-s1)` compares with `m2 * 10^(-s2)` as numbers.
pub open spec fn compare_values(m1: int, s1: nat, m2: int, s2: nat) -> Ordering {
    let a = m1 * pow10(s2);
    let b = m2 * pow10(s1);
    if a < b {
        Ordering::Less
    } else if a > b {
        Ordering::Greater
    } else {
        Ordering::Equal
    }
}

/// The whole number nearest to `mantissa * 10^(-scale)`; a tie goes to the even one.
pub open spec fn round_half_even(mantissa: int, scale: nat) -> int {
    let p = pow10(scale);
    let a = if mantissa < 0 { -mantissa } else { mantissa };
    let q = a / p;
    let rem = a % p;
    let up = 2 * rem > p || (2 * rem == p && q % 2 == 1);
    let magnitude = if up { q + 1 } else { q };
    if mantissa < 0 { -magnitude } else { magnitude }
}

/// The integer part of `mantissa * 10^(-scale)`, truncated toward zero.
pub open spec fn integer_part(mantissa: int, scale: nat) -> int {
    div_toward_zero(mantissa, pow10(scale))
}

/// What `Decimal::mantissa` returns for `d`.
pub uninterp spec fn mantissa_of(d: Decimal) -> int;

/// What `Decimal::scale` returns for `d`.
pub uninterp spec fn scale_of(d: Decimal) -> int;

/// Relies on `Decimal::try_from_i128_with_scale`: it succeeds exactly when the scale is at
/// most 28 and the mantissa's magnitude at most `2^96 - 1`, and the `Decimal` it builds
/// keeps the mantissa and the scale as given.
#[verifier::external_body]
pub(crate) fn decimal_from_parts(mantissa: i128, scale: u32) -> (r: Result<Decimal, rust_decimal::Error>)
    ensures
        r is Ok <==> fits_decimal(mantissa as int, scale as nat),
        r matches Ok(d) ==> mantissa_of(d) == mantissa && scale_of(d) == scale,
{
    Decimal::try_from_i128_with_scale(mantissa, scale)
}

/// Relies on `Decimal::mantissa`: a `Decimal` holds a 96-bit magnitude.
#[verifier::external_body]
pub(crate) fn decimal_mantissa(d: &Decimal) -> (r: i128)
    ensures
        r == mantissa_of(*d),
        -DECIMAL_MAX_MANTISSA <= r <= DECIMAL_MAX_MANTISSA,
{
    d.mantissa()
}

/// Relies on `Decimal::scale`: a `Decimal`'s scale lies between 0 and 28.
#[verifier::external_body]
pub(crate) fn decimal_scale(d: &Decimal) -> (r: u32)
    ensures
        r == scale_of(*d),
        r <= DECIMAL_MAX_SCALE,
{
    d.scale()
}

/// Relies on `Decimal::from_i128_with_scale` and `Ord for Decimal`: decimals compare by
/// numeric value, whatever their scales.
#[verifier::external_body]
pub(crate) fn decimal_cmp(m1: i128, s1: u32, m2: i128, s2: u32) -> (r: Ordering)
    requires
        fits_decimal(m1 as int, s1 as nat),
        fits_decimal(m2 as int, s2 as nat),
    ensures
        r == compare_values(m1 as int, s1 as nat, m2 as int, s2 as nat),
{
    Decimal::from_i128_with_scale(m1, s1).cmp(&Decimal::from_i128_with_scale(m2, s2))
}

/// Relies on `Decimal::from_i128_with_scale`, `Decimal::round` and `Decimal::mantissa`:
/// `round` keeps no fractional digit and rounds a tie to the even neighbour.
#[verifier::external_body]
pub(crate) fn decimal_round(mantissa: i128, scale: u32) -> (r: i128)
    requires
        fits_decimal(mantissa as int, scale as nat),
    ensures
        r == round_half_even(mantissa as int, scale as nat),
{
    Decimal::from_i128_with_scale(mantissa, scale).round().mantissa()
}

/// Relies on `Decimal::from_i128_with_scale` and `ToPrimitive::to_u64 for Decimal`: the
/// integer part, `None` for a negative decimal or one at or above `2^64`.
#[verifier::external_body]
pub(crate) fn decimal_to_u64(mantissa: i128, scale: u32) -> (r: Option<u64>)
    requires
        fits_decimal(mantissa as int, scale as nat),
    ensures
        mantissa < 0 || integer_part(mantissa as int, scale as nat) > u64::MAX ==> r is None,
        !(mantissa < 0 || integer_part(mantissa as int, scale as nat) > u64::MAX) ==> r == Some(
            integer_part(mantissa as int, scale as nat) as u64,
        ),
{
    Decimal::from_i128_with_scale(mantissa, scale).to_u64()
}

/// Relies on `Decimal::from_i128_with_scale` and `ToPrimitive::to_i64 for Decimal`: the
/// integer part, truncated toward zero, `None` where it is outside `i64`.
#[verifier::external_body]
pub(crate) fn decimal_to_i64(mantissa: i128, scale: u32) -> (r: Option<i64>)
    requires
        fits_decimal(mantissa as int, scale as nat),
    ensures
        i64::MIN <= integer_part(mantissa as int, scale as nat) <= i64::MAX ==> r == Some(
            integer_part(mantissa as int, scale as nat) as i64,
        ),
        !(i64::MIN <= integer_part(mantissa as int, scale as nat) <= i64::MAX) ==> r is None,
{
    Decimal::from_i128_with_scale(mantissa, scale).to_i64()
}

} // verus!
