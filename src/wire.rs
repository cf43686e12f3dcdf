//! The form a decimal takes when it travels as an instruction argument: 16 bytes of
//! little-endian two's-complement mantissa, then 4 bytes of little-endian scale.
use vstd::prelude::*;
use vstd::bytes::{
    lemma_auto_spec_u128_to_from_le_bytes, lemma_auto_spec_u32_to_from_le_bytes,
    spec_u128_from_le_bytes, spec_u128_to_le_bytes, spec_u32_from_le_bytes, spec_u32_to_le_bytes,
    u128_from_le_bytes, u128_to_le_bytes, u32_from_le_bytes, u32_to_le_bytes,
};
use vstd::slice::slice_subrange;
use vstd::std_specs::convert::FromSpec;
use rust_decimal::Decimal;
use crate::decimal::SwitchboardDecimal;
use crate::error::SwitchboardError;
use crate::numeric::{
    decimal_from_parts, decimal_mantissa, decimal_scale, fits_decimal, mantissa_of, scale_of,
};

verus! {

/// Number of bytes of an encoded decimal.
pub const WIRE_DECIMAL_LEN: usize = 20;

/// The wire twin of `SwitchboardDecimal`: same fields, same meaning.
#[derive(Debug, Clone, Copy, PartialEq, Eq, Structural, Default)]
pub struct BorshDecimal {
    pub mantissa: i128,
    pub scale: u32,
}

/// The encoding of `d`.
pub open spec fn wire_bytes(d: BorshDecimal) -> Seq<u8> {
    spec_u128_to_le_bytes(d.mantissa as u128) + spec_u32_to_le_bytes(d.scale)
}

/// The decimal that a 20-byte encoding stands for.
pub open spec fn decode_wire(b: Seq<u8>) -> BorshDecimal {
    BorshDecimal {
        mantissa: spec_u128_from_le_bytes(b.subrange(0, 16)) as i128,
        scale: spec_u32_from_le_bytes(b.subrange(16, 20)),
    }
}

impl BorshDecimal {
    /// The 20-byte encoding of this decimal.
    pub fn to_bytes(&self) -> (r: Vec<u8>)
        ensures
            r@ == wire_bytes(*self),
    {
        let mut out = u128_to_le_bytes(self.mantissa as u128);
        let mut tail = u32_to_le_bytes(self.scale);
        out.append(&mut tail);
        out
    }

    /// Reads an encoded decimal. Fails with `AccountDeserializationError` exactly when
    /// `bytes` is not 20 bytes long.
    pub fn from_bytes(bytes: &[u8]) -> (r: Result<BorshDecimal, SwitchboardError>)
        ensures
            bytes@.len() == WIRE_DECIMAL_LEN ==> r == Ok::<BorshDecimal, SwitchboardError>(
                decode_wire(bytes@),
            ),
            bytes@.len() != WIRE_DECIMAL_LEN ==> r == Err::<BorshDecimal, SwitchboardError>(
                SwitchboardError::AccountDeserializationError,
            ),
    {
        if bytes.len() != WIRE_DECIMAL_LEN {
            return Err(SwitchboardError::AccountDeserializationError);
        }
        let m = u128_from_le_bytes(slice_subrange(bytes, 0, 16));
        let s = u32_from_le_bytes(slice_subrange(bytes, 16, 20));
        Ok(BorshDecimal { mantissa: m as i128, scale: s })
    }

    /// Builds a wire decimal from a `rust_decimal::Decimal`, mantissa and scale as they are.
    pub fn from_rust_decimal(d: Decimal) -> (r: BorshDecimal)
        ensures
            r.mantissa == mantissa_of(d),
            r.scale == scale_of(d),
            fits_decimal(r.mantissa as int, r.scale as nat),
    {
        BorshDecimal { mantissa: decimal_mantissa(&d), scale: decimal_scale(&d) }
    }

    /// This decimal as a `rust_decimal::Decimal`; `DecimalConversionError` exactly when the
    /// pair cannot be held by one.
    pub fn to_rust_decimal(&self) -> (r: Result<Decimal, SwitchboardError>)
        ensures
            r is Ok <==> fits_decimal(self.mantissa as int, self.scale as nat),
            r is Err ==> r == Err::<Decimal, SwitchboardError>(
                SwitchboardError::DecimalConversionError,
            ),
            r matches Ok(x) ==> mantissa_of(x) == self.mantissa && scale_of(x) == self.scale,
    {
        match decimal_from_parts(self.mantissa, self.scale) {
            Ok(d) => Ok(d),
            Err(_) => Err(SwitchboardError::DecimalConversionError),
        }
    }
}

impl From<SwitchboardDecimal> for BorshDecimal {
    fn from(s: SwitchboardDecimal) -> (r: BorshDecimal) {
        BorshDecimal { mantissa: s.mantissa, scale: s.scale }
    }
}

impl vstd::std_specs::convert::FromSpecImpl<SwitchboardDecimal> for BorshDecimal {
    open spec fn obeys_from_spec() -> bool {
        true
    }

    open spec fn from_spec(s: SwitchboardDecimal) -> BorshDecimal {
        BorshDecimal { mantissa: s.mantissa, scale: s.scale }
    }
}

impl From<BorshDecimal> for SwitchboardDecimal {
    fn from(b: BorshDecimal) -> (r: SwitchboardDecimal) {
        SwitchboardDecimal { mantissa: b.mantissa, scale: b.scale }
    }
}

impl vstd::std_specs::convert::FromSpecImpl<BorshDecimal> for SwitchboardDecimal {
    open spec fn obeys_from_spec() -> bool {
        true
    }

    open spec fn from_spec(b: BorshDecimal) -> SwitchboardDecimal {
        SwitchboardDecimal { mantissa: b.mantissa, scale: b.scale }
    }
}

/// Decoding an encoded decimal gives it back, and every encoding is 20 bytes long.
pub proof fn lemma_wire_round_trip(d: BorshDecimal)
    ensures
        wire_bytes(d).len() == WIRE_DECIMAL_LEN,
        decode_wire(wire_bytes(d)) == d,
{
    lemma_auto_spec_u128_to_from_le_bytes();
    lemma_auto_spec_u32_to_from_le_bytes();
    let b = wire_bytes(d);
    assert(b.subrange(0, 16) =~= spec_u128_to_le_bytes(d.mantissa as u128));
    assert(b.subrange(16, 20) =~= spec_u32_to_le_bytes(d.scale));
    let m = d.mantissa;
    assert((m as u128) as i128 == m) by (bit_vector);
}

/// Encoding the decimal that 20 bytes stand for gives those bytes back.
pub proof fn lemma_wire_bytes_round_trip(b: Seq<u8>)
    requires
        b.len() == WIRE_DECIMAL_LEN,
    ensures
        wire_bytes(decode_wire(b)) == b,
{
    lemma_auto_spec_u128_to_from_le_bytes();
    lemma_auto_spec_u32_to_from_le_bytes();
    let x = spec_u128_from_le_bytes(b.subrange(0, 16));
    assert((x as i128) as u128 == x) by (bit_vector);
    assert(b =~= b.subrange(0, 16) + b.subrange(16, 20));
}

/// Carrying a decimal to its wire twin and back changes nothing, in either direction.
pub proof fn lemma_twin_round_trip(s: SwitchboardDecimal, b: BorshDecimal)
    ensures
        SwitchboardDecimal::from_spec(BorshDecimal::from_spec(s)) == s,
        BorshDecimal::from_spec(SwitchboardDecimal::from_spec(b)) == b,
{
}

} // verus!
