//! Little-endian integers and flags read out of a byte image at a given offset.
use vstd::prelude::*;

verus! {

/// The unsigned value of the 4 bytes at `off`, least significant first.
pub open spec fn le_u32_at(b: Seq<u8>, off: int) -> int {
    b[off] + b[off + 1] * 0x100 + b[off + 2] * 0x1_0000 + b[off + 3] * 0x100_0000
}

/// The unsigned value of the 8 bytes at `off`, least significant first.
pub open spec fn le_u64_at(b: Seq<u8>, off: int) -> int {
    le_u32_at(b, off) + le_u32_at(b, off + 4) * 0x1_0000_0000
}

/// The unsigned value of the 16 bytes at `off`, least significant first.
pub open spec fn le_u128_at(b: Seq<u8>, off: int) -> int {
    le_u64_at(b, off) + le_u64_at(b, off + 8) * 0x1_0000_0000_0000_0000
}

/// The two's-complement reading of an unsigned 64-bit value.
pub open spec fn signed64(v: int) -> int {
    if v > i64::MAX {
        v - 0x1_0000_0000_0000_0000
    } else {
        v
    }
}

/// The two's-complement reading of an unsigned 128-bit value.
pub open spec fn signed128(v: int) -> int {
    if v > i128::MAX {
        v - 0x1_0000_0000_0000_0000_0000_0000_0000_0000
    } else {
        v
    }
}

/// Whether a byte is a valid boolean (0 or 1).
pub open spec fn is_flag(v: u8) -> bool {
    v == 0 || v == 1
}

pub fn read_u32(b: &[u8], off: usize) -> (r: u32)
    requires
        off + 4 <= b@.len(),
    ensures
        r == le_u32_at(b@, off as int),
{
    b[off] as u32 + (b[off + 1] as u32) * 0x100 + (b[off + 2] as u32) * 0x1_0000 + (b[off
        + 3] as u32) * 0x100_0000
}

pub fn read_u64(b: &[u8], off: usize) -> (r: u64)
    requires
        off + 8 <= b@.len(),
    ensures
        r == le_u64_at(b@, off as int),
{
    let _len: usize = b.len();
    let lo = read_u32(b, off);
    let hi = read_u32(b, off + 4);
    lo as u64 + (hi as u64) * 0x1_0000_0000
}

pub fn read_u128(b: &[u8], off: usize) -> (r: u128)
    requires
        off + 16 <= b@.len(),
    ensures
        r == le_u128_at(b@, off as int),
{
    let _len: usize = b.len();
    let lo = read_u64(b, off);
    let hi = read_u64(b, off + 8);
    lo as u128 + (hi as u128) * 0x1_0000_0000_0000_0000
}

pub fn read_i64(b: &[u8], off: usize) -> (r: i64)
    requires
        off + 8 <= b@.len(),
    ensures
        r == signed64(le_u64_at(b@, off as int)),
{
    let v = read_u64(b, off);
    if v <= i64::MAX as u64 {
        v as i64
    } else {
        ((v - 0x8000_0000_0000_0000u64) as i64) + i64::MIN
    }
}

pub fn read_i128(b: &[u8], off: usize) -> (r: i128)
    requires
        off + 16 <= b@.len(),
    ensures
        r == signed128(le_u128_at(b@, off as int)),
{
    let v = read_u128(b, off);
    if v <= i128::MAX as u128 {
        v as i128
    } else {
        ((v - 0x8000_0000_0000_0000_0000_0000_0000_0000u128) as i128) + i128::MIN
    }
}

/// The boolean at `off`, or `None` where the byte is neither 0 nor 1.
pub fn read_flag(b: &[u8], off: usize) -> (r: Option<bool>)
    requires
        off < b@.len(),
    ensures
        is_flag(b@[off as int]) ==> r == Some(b@[off as int] == 1),
        !is_flag(b@[off as int]) ==> r is None,
{
    let v = b[off];
    if v == 0 {
        Some(false)
    } else if v == 1 {
        Some(true)
    } else {
        None
    }
}

/// The `N` bytes at `off`, copied out.
pub fn read_array<const N: usize>(b: &[u8], off: usize) -> (r: [u8; N])
    requires
        off + N <= b@.len(),
    ensures
        r@ == b@.subrange(off as int, off + N),
{
    let _len: usize = b.len();
    let mut a = [0u8; N];
    let mut i: usize = 0;
    while i < N
        invariant
            i <= N,
            off + N <= b@.len(),
            b@.len() <= usize::MAX,
            a@.len() == N,
            forall|j: int| 0 <= j < i ==> a@[j] == b@[off + j],
        decreases N - i,
    {
        a[i] = b[off + i];
        i = i + 1;
    }
    assert(a@ =~= b@.subrange(off as int, off + N));
    a
}

} // verus!
