use vstd::prelude::*;
use core::cmp::Ordering;
use rust_decimal::Decimal;
use crate::error::SwitchboardError;
use crate::numeric::{
    compare_values, decimal_cmp, decimal_from_parts, decimal_mantissa, decimal_round,
    decimal_scale, decimal_to_i64, decimal_to_u64, fits_decimal, integer_part, mantissa_of,
    round_half_even, scale_of,
    DECIMAL_MAX_MANTISSA, DECIMAL_MAX_SCALE,
};

verus! {

/// `10^k`.
pub open spec fn pow10(k: nat) -> int
    decreases k,
{
    if k == 0 {
        1
    } else {
        10 * pow10((k - 1) as nat)
    }
}

/// Division of `a` by a positive `d`, truncated toward zero.
pub open spec fn div_toward_zero(a: int, d: int) -> int {
    if a >= 0 {
        a / d
    } else {
        -((-a) / d)
    }
}

/// Whether `v` is an `i128`.
pub open spec fn fits_i128(v: int) -> bool {
    i128::MIN <= v <= i128::MAX
}

pub proof fn lemma_pow10_positive(k: nat)
    ensures
        pow10(k) >= 1,
    decreases k,
{
    if k > 0 {
        lemma_pow10_positive((k - 1) as nat);
    }
}

pub proof fn lemma_pow10_monotone(a: nat, b: nat)
    requires
        a <= b,
    ensures
        pow10(a) <= pow10(b),
    decreases b - a,
{
    if a < b {
        lemma_pow10_monotone(a, (b - 1) as nat);
        lemma_pow10_positive((b - 1) as nat);
    }
}

proof fn lemma_pow10_bounds_near_i128()
    ensures
        pow10(38) <= i128::MAX,
        pow10(39) > i128::MAX + 1,
{
    reveal_with_fuel(pow10, 40);
}

/// `10^k`, or `None` where it does not fit an `i128`.
fn checked_pow10(k: u32) -> (r: Option<i128>)
    ensures
        match r {
            Some(p) => p == pow10(k as nat),
            None => pow10(k as nat) > i128::MAX,
        },
{
    let mut p: i128 = 1;
    let mut i: u32 = 0;
    while i < k
        invariant
            i <= k,
            p == pow10(i as nat),
        decreases k - i,
    {
        match p.checked_mul(10) {
            Some(q) => {
                p = q;
            },
            None => {
                proof {
                    lemma_pow10_positive(i as nat);
                    assert(pow10((i + 1) as nat) == 10 * pow10(i as nat));
                    lemma_pow10_monotone((i + 1) as nat, k as nat);
                }
                return None;
            },
        }
        i = i + 1;
    }
    Some(p)
}

/// A fixed-scale decimal: the number `mantissa * 10^(-scale)`.
///
/// Equality (`==`) compares the raw pair, so `1.50` (150, 2) and `1.5` (15, 1) are
/// different values; the ordering methods compare them by number.
#[derive(Debug, Clone, Copy, PartialEq, Eq, Structural, Default)]
pub struct SwitchboardDecimal {
    /// The significant digits.
    pub mantissa: i128,
    /// The number of decimal places the point is moved to the left.
    pub scale: u32,
}

impl SwitchboardDecimal {
    /// The mantissa that represents this number at `new_scale`: exact when the scale
    /// grows, truncated toward zero when it shrinks.
    pub open spec fn rescaled(self, new_scale: nat) -> int {
        if new_scale >= self.scale {
            self.mantissa * pow10((new_scale - self.scale) as nat)
        } else {
            div_toward_zero(self.mantissa as int, pow10((self.scale - new_scale) as nat))
        }
    }

    pub fn new(mantissa: i128, scale: u32) -> (r: SwitchboardDecimal)
        ensures
            r.mantissa == mantissa,
            r.scale == scale,
    {
        SwitchboardDecimal { mantissa, scale }
    }

    /// The mantissa of this number at `new_scale`. Fails with `IntegerOverflowError`
    /// exactly when that mantissa does not fit an `i128`.
    pub fn scale_to(&self, new_scale: u32) -> (r: Result<i128, SwitchboardError>)
        ensures
            fits_i128(self.rescaled(new_scale as nat)) ==> r == Ok::<i128, SwitchboardError>(
                self.rescaled(new_scale as nat) as i128,
            ),
            !fits_i128(self.rescaled(new_scale as nat)) ==> r == Err::<i128, SwitchboardError>(
                SwitchboardError::IntegerOverflowError,
            ),
    {
        let m = self.mantissa;
        if self.scale > new_scale {
            let k = self.scale - new_scale;
            match checked_pow10(k) {
                Some(p) => {
                    proof {
                        lemma_pow10_positive(k as nat);
                        lemma_div_toward_zero_bounded(m as int, p as int);
                    }
                    match m.checked_div(p) {
                        Some(q) => Ok(q),
                        None => Err(SwitchboardError::IntegerOverflowError),
                    }
                },
                None => {
                    proof {
                        lemma_pow10_bounds_near_i128();
                        if k <= 38 {
                            lemma_pow10_monotone(k as nat, 38);
                        }
                        lemma_pow10_monotone(39, k as nat);
                        lemma_div_toward_zero_small(m as int, pow10(k as nat));
                    }
                    Ok(0)
                },
            }
        } else if self.scale < new_scale {
            let k = new_scale - self.scale;
            match checked_pow10(k) {
                Some(p) => {
                    match m.checked_mul(p) {
                        Some(v) => Ok(v),
                        None => Err(SwitchboardError::IntegerOverflowError),
                    }
                },
                None => {
                    if m == 0 {
                        Ok(0)
                    } else {
                        proof {
                            lemma_pow10_bounds_near_i128();
                            if k <= 38 {
                                lemma_pow10_monotone(k as nat, 38);
                            }
                            lemma_pow10_monotone(39, k as nat);
                            lemma_nonzero_product_large(m as int, pow10(k as nat));
                        }
                        Err(SwitchboardError::IntegerOverflowError)
                    }
                },
            }
        } else {
            proof {
                assert(pow10(0) == 1);
            }
            Ok(m)
        }
    }

    /// This number rewritten at `new_scale` (see `scale_to`).
    pub fn new_with_scale(&self, new_scale: u32) -> (r: Result<SwitchboardDecimal, SwitchboardError>)
        ensures
            fits_i128(self.rescaled(new_scale as nat)) ==> r == Ok::<
                SwitchboardDecimal,
                SwitchboardError,
            >(SwitchboardDecimal { mantissa: self.rescaled(new_scale as nat) as i128, scale: new_scale }),
            !fits_i128(self.rescaled(new_scale as nat)) ==> r == Err::<
                SwitchboardDecimal,
                SwitchboardError,
            >(SwitchboardError::IntegerOverflowError),
    {
        match self.scale_to(new_scale) {
            Ok(mantissa) => Ok(SwitchboardDecimal { mantissa, scale: new_scale }),
            Err(e) => Err(e),
        }
    }
}

impl SwitchboardDecimal {
    /// Whether this pair can be held by a `rust_decimal::Decimal` as it is.
    pub open spec fn representable(self) -> bool {
        fits_decimal(self.mantissa as int, self.scale as nat)
    }

    /// The numeric order of two decimals, or `None` where one of them is not representable.
    pub open spec fn compare_spec(self, other: SwitchboardDecimal) -> Option<Ordering> {
        if self.representable() && other.representable() {
            Some(
                compare_values(
                    self.mantissa as int,
                    self.scale as nat,
                    other.mantissa as int,
                    other.scale as nat,
                ),
            )
        } else {
            None
        }
    }

    /// Builds a decimal from a `rust_decimal::Decimal`, mantissa and scale taken as they are.
    pub fn from_rust_decimal(d: Decimal) -> (r: SwitchboardDecimal)
        ensures
            r.mantissa == mantissa_of(d),
            r.scale == scale_of(d),
            r.representable(),
    {
        SwitchboardDecimal::new(decimal_mantissa(&d), decimal_scale(&d))
    }

    /// This decimal as a `rust_decimal::Decimal`; `DecimalConversionError` exactly when it is
    /// not representable.
    pub fn to_rust_decimal(&self) -> (r: Result<Decimal, SwitchboardError>)
        ensures
            r is Ok <==> self.representable(),
            r is Err ==> r == Err::<Decimal, SwitchboardError>(
                SwitchboardError::DecimalConversionError,
            ),
            r matches Ok(x) ==> mantissa_of(x) == self.mantissa && scale_of(x) == self.scale,
    {
        match decimal_from_parts(self.mantissa, self.scale) {
            Ok(d) => Ok(d),
            Err(_) => Err(SwitchboardError::DecimalConversionError),
        }
    }

    /// Compares two decimals by numeric value, so that `1.50` and `1.5` are `Equal`.
    /// Fails with `DecimalConversionError` where either one is not representable.
    pub fn try_cmp(&self, other: &SwitchboardDecimal) -> (r: Result<Ordering, SwitchboardError>)
        ensures
            match self.compare_spec(*other) {
                Some(o) => r == Ok::<Ordering, SwitchboardError>(o),
                None => r == Err::<Ordering, SwitchboardError>(
                    SwitchboardError::DecimalConversionError,
                ),
            },
    {
        if fits(self.mantissa, self.scale) && fits(other.mantissa, other.scale) {
            Ok(decimal_cmp(self.mantissa, self.scale, other.mantissa, other.scale))
        } else {
            Err(SwitchboardError::DecimalConversionError)
        }
    }

    /// Whether the value, rounded to the nearest whole unit (a tie to the even one), is
    /// nonzero. Fails with `DecimalConversionError` where the pair is not representable.
    pub fn to_bool(&self) -> (r: Result<bool, SwitchboardError>)
        ensures
            self.representable() ==> r == Ok::<bool, SwitchboardError>(
                round_half_even(self.mantissa as int, self.scale as nat) != 0,
            ),
            !self.representable() ==> r == Err::<bool, SwitchboardError>(
                SwitchboardError::DecimalConversionError,
            ),
    {
        if fits(self.mantissa, self.scale) {
            Ok(decimal_round(self.mantissa, self.scale) != 0)
        } else {
            Err(SwitchboardError::DecimalConversionError)
        }
    }

    /// The integer part of the value as a `u64`. Fails with `IntegerOverflowError` where the
    /// value is negative or its integer part is `2^64` or more, else with
    /// `DecimalConversionError` where the pair is not representable.
    pub fn try_into_u64(&self) -> (r: Result<u64, SwitchboardError>)
        ensures
            self.u64_overflows() ==> r == Err::<u64, SwitchboardError>(
                SwitchboardError::IntegerOverflowError,
            ),
            !self.u64_overflows() && !self.representable() ==> r == Err::<u64, SwitchboardError>(
                SwitchboardError::DecimalConversionError,
            ),
            !self.u64_overflows() && self.representable() ==> r == Ok::<u64, SwitchboardError>(
                integer_part(self.mantissa as int, self.scale as nat) as u64,
            ),
    {
        if fits(self.mantissa, self.scale) {
            match decimal_to_u64(self.mantissa, self.scale) {
                Some(v) => Ok(v),
                None => Err(SwitchboardError::IntegerOverflowError),
            }
        } else {
            let t = self.integer_part_exec();
            if self.mantissa < 0 || t > u64::MAX as i128 {
                Err(SwitchboardError::IntegerOverflowError)
            } else {
                Err(SwitchboardError::DecimalConversionError)
            }
        }
    }

    /// The integer part of the value, truncated toward zero, as an `i64`. Fails with
    /// `IntegerOverflowError` where it is outside `i64`, else with `DecimalConversionError`
    /// where the pair is not representable.
    pub fn try_into_i64(&self) -> (r: Result<i64, SwitchboardError>)
        ensures
            self.i64_overflows() ==> r == Err::<i64, SwitchboardError>(
                SwitchboardError::IntegerOverflowError,
            ),
            !self.i64_overflows() && !self.representable() ==> r == Err::<i64, SwitchboardError>(
                SwitchboardError::DecimalConversionError,
            ),
            !self.i64_overflows() && self.representable() ==> r == Ok::<i64, SwitchboardError>(
                integer_part(self.mantissa as int, self.scale as nat) as i64,
            ),
    {
        if fits(self.mantissa, self.scale) {
            match decimal_to_i64(self.mantissa, self.scale) {
                Some(v) => Ok(v),
                None => Err(SwitchboardError::IntegerOverflowError),
            }
        } else {
            let t = self.integer_part_exec();
            if t < i64::MIN as i128 || t > i64::MAX as i128 {
                Err(SwitchboardError::IntegerOverflowError)
            } else {
                Err(SwitchboardError::DecimalConversionError)
            }
        }
    }

    pub open spec fn u64_overflows(self) -> bool {
        self.mantissa < 0 || integer_part(self.mantissa as int, self.scale as nat) > u64::MAX
    }

    pub open spec fn i64_overflows(self) -> bool {
        let t = integer_part(self.mantissa as int, self.scale as nat);
        t < i64::MIN || t > i64::MAX
    }

    fn integer_part_exec(&self) -> (r: i128)
        ensures
            r == integer_part(self.mantissa as int, self.scale as nat),
    {
        proof {
            lemma_pow10_positive(self.scale as nat);
            lemma_div_toward_zero_bounded(self.mantissa as int, pow10(self.scale as nat));
            if self.scale == 0 {
                assert(pow10(0) == 1);
                assert(div_toward_zero(self.mantissa as int, 1) == self.mantissa);
                assert(self.rescaled(0) == self.mantissa * pow10(0));
            } else {
                assert(self.rescaled(0) == div_toward_zero(
                    self.mantissa as int,
                    pow10(self.scale as nat),
                ));
            }
            assert(self.rescaled(0) == integer_part(self.mantissa as int, self.scale as nat));
        }
        match self.scale_to(0) {
            Ok(t) => t,
            Err(_) => 0,
        }
    }
}

fn fits(mantissa: i128, scale: u32) -> (r: bool)
    ensures
        r == fits_decimal(mantissa as int, scale as nat),
{
    scale <= DECIMAL_MAX_SCALE && -DECIMAL_MAX_MANTISSA <= mantissa && mantissa <= DECIMAL_MAX_MANTISSA
}

impl PartialOrd for SwitchboardDecimal {
    /// Numeric comparison; `None` where either side is not representable.
    fn partial_cmp(&self, other: &SwitchboardDecimal) -> (r: Option<Ordering>) {
        match self.try_cmp(other) {
            Ok(o) => Some(o),
            Err(_) => None,
        }
    }
}

impl vstd::std_specs::cmp::PartialOrdSpecImpl for SwitchboardDecimal {
    open spec fn obeys_partial_cmp_spec() -> bool {
        true
    }

    open spec fn partial_cmp_spec(&self, other: &SwitchboardDecimal) -> Option<Ordering> {
        self.compare_spec(*other)
    }
}

/// Raising a decimal's scale and lowering it back gives its mantissa again, wherever
/// the raised mantissa fits.
pub proof fn lemma_rescale_round_trip(d: SwitchboardDecimal, s2: u32)
    requires
        s2 >= d.scale,
        fits_i128(d.rescaled(s2 as nat)),
    ensures
        (SwitchboardDecimal { mantissa: d.rescaled(s2 as nat) as i128, scale: s2 }).rescaled(
            d.scale as nat,
        ) == d.mantissa,
{
    let k = (s2 - d.scale) as nat;
    let p = pow10(k);
    lemma_pow10_positive(k);
    let m = d.mantissa as int;
    let e = SwitchboardDecimal { mantissa: d.rescaled(s2 as nat) as i128, scale: s2 };
    if s2 == d.scale {
        assert(pow10(0) == 1);
    } else {
        if m >= 0 {
            assert((m * p) / p == m) by (nonlinear_arith)
                requires
                    p >= 1,
            ;
            assert(m * p >= 0) by (nonlinear_arith)
                requires
                    p >= 1,
                    m >= 0,
            ;
        } else {
            assert(((-m) * p) / p == -m) by (nonlinear_arith)
                requires
                    p >= 1,
            ;
            assert(-(m * p) == (-m) * p) by (nonlinear_arith);
            assert(m * p < 0) by (nonlinear_arith)
                requires
                    p >= 1,
                    m < 0,
            ;
        }
    }
}

proof fn lemma_div_toward_zero_bounded(a: int, d: int)
    requires
        d >= 1,
        fits_i128(a),
    ensures
        fits_i128(div_toward_zero(a, d)),
        a >= 0 ==> div_toward_zero(a, d) == a / d,
{
    if a >= 0 {
        assert(0 <= a / d <= a) by (nonlinear_arith)
            requires
                a >= 0,
                d >= 1,
        ;
    } else {
        assert(0 <= (-a) / d <= -a) by (nonlinear_arith)
            requires
                -a >= 0,
                d >= 1,
        ;
    }
}

proof fn lemma_div_toward_zero_small(a: int, d: int)
    requires
        fits_i128(a),
        d > i128::MAX + 1,
    ensures
        div_toward_zero(a, d) == 0,
{
    if a >= 0 {
        assert(a / d == 0) by (nonlinear_arith)
            requires
                0 <= a < d,
        ;
    } else {
        assert((-a) / d == 0) by (nonlinear_arith)
            requires
                0 <= -a < d,
        ;
    }
}

proof fn lemma_nonzero_product_large(m: int, p: int)
    requires
        m != 0,
        p > i128::MAX + 1,
    ensures
        !fits_i128(m * p),
{
    if m > 0 {
        assert(m * p >= p) by (nonlinear_arith)
            requires
                m >= 1,
                p >= 0,
        ;
    } else {
        assert(m * p <= -p) by (nonlinear_arith)
            requires
                m <= -1,
                p >= 0,
        ;
    }
}

} // verus!
