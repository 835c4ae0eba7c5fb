//! Single-precision numbers, held as their IEEE-754 bit patterns.
//!
//! Everything that reaches a shader is a 32-bit float. The library never
//! computes with these numbers; it stores them, copies them into uniform
//! blocks and hands them on. A `u32` with the number's bit pattern does all of
//! that, and has an equality that is plain equality of bits.

use vstd::prelude::*;
use vstd::arithmetic::power2::{pow2, lemma2_to64};

verus! {

/// `0.0`
pub const ZERO: u32 = 0x0000_0000;

/// `1.0`
pub const ONE: u32 = 0x3F80_0000;

/// `2.0`
pub const TWO: u32 = 0x4000_0000;

/// `10.0`
pub const TEN: u32 = 0x4120_0000;

/// `-1.0`
pub const NEG_ONE: u32 = 0xBF80_0000;

/// `-10.0`
pub const NEG_TEN: u32 = 0xC120_0000;

/// The sign bit of a pattern: `true` for a negative number.
pub open spec fn sign(bits: u32) -> bool {
    bits >= 0x8000_0000
}

/// The biased exponent of a pattern, `0..=255`.
pub open spec fn exponent(bits: u32) -> int {
    (bits as int / 0x80_0000) % 0x100
}

/// The 23 fraction bits of a pattern.
pub open spec fn fraction(bits: u32) -> int {
    bits as int % 0x80_0000
}

/// The magnitude of a pattern, where that magnitude is a whole number.
///
/// A normal number is `(2^23 + fraction) * 2^(exponent - 150)`. It is whole
/// when the exponent is at least 150, or when the low `150 - exponent` bits of
/// the significand are all zero. Both zeros are whole; subnormals, infinities
/// and NaNs are not.
pub open spec fn whole_magnitude(bits: u32) -> Option<int> {
    let e = exponent(bits);
    let m = 0x80_0000 + fraction(bits);
    if e == 0 {
        if fraction(bits) == 0 {
            Some(0)
        } else {
            None
        }
    } else if e == 255 {
        None
    } else if e >= 150 {
        Some(m * pow2((e - 150) as nat))
    } else if e >= 127 && m % (pow2((150 - e) as nat) as int) == 0 {
        Some(m / (pow2((150 - e) as nat) as int))
    } else {
        None
    }
}

/// The integer that a pattern denotes, or `None` where it denotes no integer.
pub open spec fn integral(bits: u32) -> Option<int> {
    match whole_magnitude(bits) {
        Some(n) => Some(if sign(bits) { -n } else { n }),
        None => None,
    }
}

/// `bits` is the positive single-precision number closest to the fraction
/// `num / den`: it lies within half a unit in the last place of it.
///
/// With significand `m` and exponent `e` the number is `m / 2^(150 - e)`, so
/// the distance to `num / den`, scaled by `den * 2^(150 - e)`, is
/// `|m * den - num * 2^(150 - e)|`, and half a unit in the last place scales
/// to `den / 2`. Stated for numbers below `2^23`, which have such a unit.
pub open spec fn closest_to(bits: u32, num: int, den: int) -> bool {
    let e = exponent(bits);
    let m = 0x80_0000 + fraction(bits);
    let scaled = m * den - num * pow2((150 - e) as nat);
    &&& !sign(bits)
    &&& 0 < e < 150
    &&& 0 < num
    &&& 0 < den
    &&& -den <= 2 * scaled <= den
}

/// The named patterns denote the integers in their names.
pub proof fn lemma_named_integers()
    ensures
        integral(ZERO) == Some(0int),
        integral(ONE) == Some(1int),
        integral(TWO) == Some(2int),
        integral(TEN) == Some(10int),
        integral(NEG_ONE) == Some(-1int),
        integral(NEG_TEN) == Some(-10int),
{
    lemma2_to64();
    assert(exponent(ONE) == 127 && fraction(ONE) == 0);
    assert(whole_magnitude(ONE) == Some(1int)) by {
        assert(pow2(23) == 0x80_0000);
        assert(0x80_0000int % 0x80_0000int == 0 && 0x80_0000int / 0x80_0000int == 1);
    }
    assert(exponent(TWO) == 128 && fraction(TWO) == 0);
    assert(whole_magnitude(TWO) == Some(2int)) by {
        assert(pow2(22) == 0x40_0000);
        assert(0x80_0000int % 0x40_0000int == 0 && 0x80_0000int / 0x40_0000int == 2);
    }
    assert(exponent(TEN) == 130 && fraction(TEN) == 0x20_0000);
    assert(whole_magnitude(TEN) == Some(10int)) by {
        assert(pow2(20) == 0x10_0000);
        assert(0xA0_0000int % 0x10_0000int == 0 && 0xA0_0000int / 0x10_0000int == 10);
    }
    assert(exponent(NEG_ONE) == 127 && fraction(NEG_ONE) == 0);
    assert(whole_magnitude(NEG_ONE) == whole_magnitude(ONE));
    assert(exponent(NEG_TEN) == 130 && fraction(NEG_TEN) == 0x20_0000);
    assert(whole_magnitude(NEG_TEN) == whole_magnitude(TEN));
}

} // verus!
