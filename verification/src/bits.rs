//! Model of 32-bit IEEE-754 samples as their bit patterns.
//!
//! A `u32` here is the raw bit pattern of a sample: 1 sign bit, 8 exponent
//! bits, 23 fraction bits. Two facts about that encoding justify the
//! functions below; both are standard properties of IEEE-754:
//!
//! * a value is finite exactly when its exponent field is not all ones,
//!   i.e. when its magnitude bits are below those of infinity; and
//! * on finite values of equal sign, the unsigned order of the magnitude
//!   bits is the order of the absolute values, so `|x| <= |y|` holds exactly
//!   when `mag_bits(x) <= mag_bits(y)`.
//!
//! With those, the hard limiter and the unit-interval clamp used for the
//! volume are pure bit manipulations, and the library computes them itself.

use vstd::prelude::*;

verus! {

/// Bit pattern of 1.0f32.
pub const ONE_BITS: u32 = 0x3F80_0000;

/// Bit pattern of the largest float below 1.0, which is 1.0 - 2^-24.
/// It is the only other value whose distance from 1.0 is under
/// f32::EPSILON = 2^-23 (the next values either way are exactly 2^-23 off).
pub const BELOW_ONE_BITS: u32 = 0x3F7F_FFFF;

/// Bit pattern of 0.99f32, the hard limiter's ceiling.
pub const LIMIT_BITS: u32 = 0x3F7D_70A4;

/// Sign bit.
pub const SIGN_MASK: u32 = 0x8000_0000;

/// Everything but the sign bit.
pub const MAG_MASK: u32 = 0x7FFF_FFFF;

/// Magnitude bits of infinity: all exponent bits set, fraction zero.
pub const INF_BITS: u32 = 0x7F80_0000;

/// The magnitude bits of a sample: its absolute value's bit pattern.
pub open spec fn mag_bits(s: u32) -> u32 {
    s & MAG_MASK
}

/// A sample is finite when its magnitude is below that of infinity
/// (neither an infinity nor a NaN).
pub open spec fn is_finite_bits(s: u32) -> bool {
    mag_bits(s) < INF_BITS
}

/// What the hard limiter returns: non-finite input becomes exactly 0.0;
/// finite input with |s| > 0.99 becomes +/-0.99, keeping the sign;
/// anything else passes through bit-identically.
pub open spec fn hard_limit_spec(s: u32) -> u32 {
    if !is_finite_bits(s) {
        0u32
    } else if mag_bits(s) > LIMIT_BITS {
        (s & SIGN_MASK) | LIMIT_BITS
    } else {
        s
    }
}

/// Hard limiter: clamps finite samples to +/-0.99 and masks NaN and
/// infinities to 0.0. Used only on the non-bit-perfect path.
pub fn hard_limit(s: u32) -> (r: u32)
    ensures
        r == hard_limit_spec(s),
{
    let mag = s & MAG_MASK;
    if mag >= INF_BITS {
        0u32
    } else if mag > LIMIT_BITS {
        (s & SIGN_MASK) | LIMIT_BITS
    } else {
        s
    }
}

/// The hard limiter's output is always a finite value of magnitude at most
/// 0.99, and non-finite input is masked to exactly 0.0.
pub proof fn lemma_hard_limit_bounds(s: u32)
    ensures
        mag_bits(hard_limit_spec(s)) <= LIMIT_BITS,
        is_finite_bits(hard_limit_spec(s)),
        !is_finite_bits(s) ==> hard_limit_spec(s) == 0u32,
{
    assert(((s & 0x8000_0000) | 0x3F7D_70A4) & 0x7FFF_FFFF == 0x3F7D_70A4) by (bit_vector);
    assert((s & 0x7FFF_FFFF) <= 0x3F7D_70A4 ==> (s & 0x7FFF_FFFF) & 0x7FFF_FFFF <= 0x3F7D_70A4)
        by (bit_vector);
    assert(s & 0x7FFF_FFFF == (s & 0x7FFF_FFFF) & 0x7FFF_FFFF) by (bit_vector);
    assert(0u32 & 0x7FFF_FFFF == 0) by (bit_vector);
}

/// The hard limiter never changes a finite sample whose magnitude is
/// already within the ceiling: below the ceiling it is the identity.
pub proof fn lemma_hard_limit_identity(s: u32)
    requires
        is_finite_bits(s),
        mag_bits(s) <= LIMIT_BITS,
    ensures
        hard_limit_spec(s) == s,
{
}

/// Whether a gain's float value is within f32::EPSILON of 1.0, which is the
/// trigger for the bit-perfect fast path. Exactly two bit patterns qualify:
/// 1.0 itself and the float just below it (see `BELOW_ONE_BITS`).
pub open spec fn near_unity_spec(g: u32) -> bool {
    g == ONE_BITS || g == BELOW_ONE_BITS
}

/// Fast-path test: is this gain close enough to 1.0 that applying it must
/// be skipped to keep the output bit-identical to the input?
pub fn near_unity(g: u32) -> (r: bool)
    ensures
        r == near_unity_spec(g),
{
    g == ONE_BITS || g == BELOW_ONE_BITS
}

/// What clamping a volume to [0.0, 1.0] returns, bit for bit, matching
/// f32::clamp: NaN stays itself, negative values (including -infinity, but
/// not -0.0, which equals 0.0) become 0.0, values above 1.0 (including
/// +infinity) become 1.0, the rest pass through.
pub open spec fn clamp_unit_spec(v: u32) -> u32 {
    if mag_bits(v) > INF_BITS {
        v
    } else if v & SIGN_MASK != 0 && mag_bits(v) != 0 {
        0u32
    } else if mag_bits(v) > ONE_BITS {
        ONE_BITS
    } else {
        v
    }
}

/// Clamp a volume to the unit interval, as f32::clamp(0.0, 1.0) would.
pub fn clamp_unit(v: u32) -> (r: u32)
    ensures
        r == clamp_unit_spec(v),
{
    let mag = v & MAG_MASK;
    if mag > INF_BITS {
        v
    } else if (v & SIGN_MASK) != 0 && mag != 0 {
        0u32
    } else if mag > ONE_BITS {
        ONE_BITS
    } else {
        v
    }
}

/// A clamped volume is never NaN-negative nonsense: it is either the NaN
/// that came in, or a finite value of magnitude at most 1.0 with the sign
/// bit only on -0.0.
pub proof fn lemma_clamp_unit_range(v: u32)
    requires
        mag_bits(v) <= INF_BITS,
    ensures
        mag_bits(clamp_unit_spec(v)) <= ONE_BITS,
{
    assert(0u32 & 0x7FFF_FFFF == 0) by (bit_vector);
    assert(0x3F80_0000u32 & 0x7FFF_FFFF == 0x3F80_0000) by (bit_vector);
    assert(v & 0x7FFF_FFFF == (v & 0x7FFF_FFFF) & 0x7FFF_FFFF) by (bit_vector);
}

} // verus!
