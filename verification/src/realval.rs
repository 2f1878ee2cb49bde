//! Bit-pattern model of the real-valued configuration fields.
//!
//! The pipeline never does arithmetic on real-valued configuration values
//! (probabilities, distances, factors): it stores them, compares them and
//! tests their sign. Holding the raw IEEE 754 single-precision bit pattern
//! keeps that logic exact; the unverified shell converts at the boundary
//! with `to_bits` and `from_bits`.

use vstd::prelude::*;

verus! {

/// The bit pattern of an IEEE 754 single-precision number.
pub type RealBits = u32;

/// Bit pattern of positive zero.
pub const REAL_POS_ZERO: RealBits = 0x0000_0000;

/// Bit pattern of negative zero.
pub const REAL_NEG_ZERO: RealBits = 0x8000_0000;

/// Bit pattern of one.
pub const REAL_ONE: RealBits = 0x3f80_0000;

/// Whether the encoded number is a NaN: all exponent bits set and a
/// non-zero mantissa.
pub open spec fn real_is_nan(bits: RealBits) -> bool {
    bits & 0x7f80_0000u32 == 0x7f80_0000u32 && bits & 0x007f_ffffu32 != 0u32
}

/// Whether the encoded number is one of the two zeros.
pub open spec fn real_is_zero(bits: RealBits) -> bool {
    bits & 0x7fff_ffffu32 == 0u32
}

/// Whether the two encoded numbers compare equal under `==` on the encoded
/// values: same bits or both zeros, and neither a NaN.
pub open spec fn real_eq(a: RealBits, b: RealBits) -> bool {
    !real_is_nan(a) && !real_is_nan(b) && (a == b || (real_is_zero(a) && real_is_zero(b)))
}

/// Whether the encoded number compares `<= 0.0`: it is a zero, or its sign
/// bit is set and it is not a NaN.
pub open spec fn real_le_zero(bits: RealBits) -> bool {
    real_is_zero(bits) || (bits & 0x8000_0000u32 != 0u32 && bits & 0x7fff_ffffu32
        <= 0x7f80_0000u32)
}

pub fn is_real_nan(bits: RealBits) -> (r: bool)
    ensures
        r == real_is_nan(bits),
{
    bits & 0x7f80_0000 == 0x7f80_0000 && bits & 0x007f_ffff != 0
}

pub fn is_real_zero(bits: RealBits) -> (r: bool)
    ensures
        r == real_is_zero(bits),
{
    bits & 0x7fff_ffff == 0
}

pub fn is_real_eq(a: RealBits, b: RealBits) -> (r: bool)
    ensures
        r == real_eq(a, b),
{
    !is_real_nan(a) && !is_real_nan(b) && (a == b || (is_real_zero(a) && is_real_zero(b)))
}

pub fn is_real_le_zero(bits: RealBits) -> (r: bool)
    ensures
        r == real_le_zero(bits),
{
    is_real_zero(bits) || (bits & 0x8000_0000 != 0 && bits & 0x7fff_ffff <= 0x7f80_0000)
}

} // verus!
