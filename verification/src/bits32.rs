//! frexp / ldexp on raw IEEE-754 binary32 bit patterns.
//!
//! The same field rules as `bits64`, scaled to binary32: sign (bit 31),
//! biased exponent (bits 23..=30, bias 127) and fraction (bits 0..=22). A
//! normal value with biased exponent `E` and fraction `f` encodes
//! `(-1)^sign * (1 + f / 2^23) * 2^(E - 127)`; a biased exponent of `0x7e`
//! puts the magnitude in `[0.5, 1.0)`.

use vstd::prelude::*;

verus! {

/// The sign bit (bit 31): 0 for a positive pattern, 1 for a negative one.
pub open spec fn sign_bit(b: u32) -> u32 {
    b >> 31
}

/// The 8-bit biased exponent field (bits 23..=30).
pub open spec fn biased_exp(b: u32) -> u32 {
    (b >> 23) & 0xff
}

/// The 23-bit fraction field (bits 0..=22).
pub open spec fn frac_field(b: u32) -> u32 {
    b & 0x7f_ffff
}

/// A pattern encoding zero of either sign: everything but the sign bit clear.
pub open spec fn is_zero(b: u32) -> bool {
    b & 0x7fff_ffff == 0
}

/// A normal value: finite, non-zero and non-subnormal, i.e. the biased
/// exponent is neither 0 (zero/subnormal) nor 0xff (infinity/NaN).
pub open spec fn is_normal(b: u32) -> bool {
    1 <= biased_exp(b) && biased_exp(b) <= 0xfe
}

/// The infinity pattern carrying the sign of `b`.
pub open spec fn signed_infinity(b: u32) -> u32 {
    if sign_bit(b) == 1 {
        0xff80_0000u32
    } else {
        0x7f80_0000u32
    }
}

/// The mantissa half of decomposition: the input's sign and fraction with
/// the biased exponent forced to 0x7e, so the encoded magnitude lies in
/// [0.5, 1.0). A zero input gives the positive-zero pattern.
pub open spec fn frexp_mantissa(b: u32) -> u32 {
    if is_zero(b) {
        0u32
    } else {
        (b & 0x8000_0000) | 0x3f00_0000 | frac_field(b)
    }
}

/// The exponent half of decomposition: the power of two that scales a
/// magnitude in [0.5, 1.0) back to the input, i.e. the unbiased exponent
/// plus one. A zero input gives 0.
pub open spec fn frexp_exponent(b: u32) -> i32 {
    if is_zero(b) {
        0i32
    } else {
        (biased_exp(b) - 126) as i32
    }
}

/// Recomposition on patterns: add `e` to the biased exponent, keeping sign
/// and fraction. A zero pattern or a zero shift passes through unchanged; a
/// sum outside [0, 0xff] saturates to infinity with the input's sign.
pub open spec fn ldexp_pattern(b: u32, e: i32) -> u32 {
    if is_zero(b) || e == 0 {
        b
    } else if biased_exp(b) + e < 0 || biased_exp(b) + e > 0xff {
        signed_infinity(b)
    } else {
        (b & 0x807f_ffff) | (((biased_exp(b) + e) as u32) << 23)
    }
}

/// Split a binary32 pattern into a mantissa pattern with magnitude in
/// [0.5, 1.0) and a binary exponent, so that mantissa * 2^exponent encodes
/// the same value. Either zero pattern yields (positive zero, 0).
pub fn frexp_bits(bits: u32) -> (r: (u32, i32))
    ensures
        r.0 == frexp_mantissa(bits),
        r.1 == frexp_exponent(bits),
        is_zero(bits) ==> r.0 == 0 && r.1 == 0,
        !is_zero(bits) ==> biased_exp(r.0) == 0x7e,
        !is_zero(bits) ==> sign_bit(r.0) == sign_bit(bits),
        !is_zero(bits) ==> frac_field(r.0) == frac_field(bits),
        !is_zero(bits) ==> r.1 == biased_exp(bits) - 126,
{
    if bits & 0x7fff_ffff == 0 {
        return (0u32, 0i32);
    }
    let biased: u32 = (bits >> 23) & 0xff;
    let mantissa: u32 = (bits & 0x8000_0000) | 0x3f00_0000 | (bits & 0x7f_ffff);
    proof {
        assert(biased <= 0xff) by (bit_vector)
            requires
                biased == (bits >> 23) & 0xff,
        ;
        assert((mantissa >> 23) & 0xff == 0x7e && mantissa >> 31 == bits >> 31 && mantissa
            & 0x7f_ffff == bits & 0x7f_ffff) by (bit_vector)
            requires
                mantissa == (bits & 0x8000_0000) | 0x3f00_0000 | (bits & 0x7f_ffff),
        ;
    }
    let e: i32 = (biased as i32) - 126;
    (mantissa, e)
}

/// Scale a binary32 pattern by 2^exp: the biased exponent grows by `exp`
/// while sign and fraction stay as they are. A zero pattern or a zero `exp`
/// comes back unchanged; a biased exponent pushed outside [0, 0xff]
/// saturates to infinity with the input's sign, for underflow as well as
/// overflow.
pub fn ldexp_bits(bits: u32, exp: i32) -> (r: u32)
    ensures
        r == ldexp_pattern(bits, exp),
        exp == 0 ==> r == bits,
        is_zero(bits) ==> r == bits,
        !is_zero(bits) && 0 <= biased_exp(bits) + exp <= 0xff ==> sign_bit(r) == sign_bit(bits)
            && frac_field(r) == frac_field(bits) && biased_exp(r) == biased_exp(bits) + exp,
        !is_zero(bits) && !(0 <= biased_exp(bits) + exp <= 0xff) ==> r == signed_infinity(bits),
{
    if bits & 0x7fff_ffff == 0 || exp == 0 {
        proof {
            assert((bits >> 23) & 0xff <= 0xff) by (bit_vector);
        }
        return bits;
    }
    let biased: u32 = (bits >> 23) & 0xff;
    proof {
        assert(biased <= 0xff && (bits >> 31 == 0 || bits >> 31 == 1)) by (bit_vector)
            requires
                biased == (bits >> 23) & 0xff,
        ;
    }
    let ne: i64 = biased as i64 + exp as i64;
    if ne < 0 || ne > 0xff {
        if bits >> 31 != 0 {
            0xff80_0000
        } else {
            0x7f80_0000
        }
    } else {
        let nu: u32 = ne as u32;
        let r: u32 = (bits & 0x807f_ffff) | (nu << 23);
        proof {
            assert(r >> 31 == bits >> 31 && r & 0x7f_ffff == bits & 0x7f_ffff && (r >> 23) & 0xff
                == nu) by (bit_vector)
                requires
                    nu <= 0xff,
                    r == (bits & 0x807f_ffff) | (nu << 23),
            ;
        }
        r
    }
}

/// Round-trip identity: recomposing the mantissa and exponent that
/// decomposition produced from a normal pattern gives back exactly the
/// original pattern, bit for bit.
pub proof fn lemma_frexp_ldexp_round_trip(b: u32)
    by (bit_vector)
    requires
        is_normal(b),
    ensures
        ldexp_pattern(frexp_mantissa(b), frexp_exponent(b)) == b,
{
}

/// Range invariant: the mantissa produced from a normal pattern carries
/// biased exponent 0x7e and is itself normal, i.e. its magnitude lies in
/// [0.5, 1.0).
pub proof fn lemma_frexp_mantissa_in_range(b: u32)
    by (bit_vector)
    requires
        is_normal(b),
    ensures
        biased_exp(frexp_mantissa(b)) == 0x7e,
        is_normal(frexp_mantissa(b)),
{
}

/// Zero case: either zero pattern, positive or negative, decomposes to the
/// positive-zero pattern and exponent 0.
pub proof fn lemma_frexp_zero(b: u32)
    requires
        is_zero(b),
    ensures
        frexp_mantissa(b) == 0,
        frexp_exponent(b) == 0,
{
}

/// Saturation: a shift that pushes a non-zero pattern's biased exponent
/// outside [0, 0xff] — above as well as below — yields the infinity
/// pattern with the input's sign.
pub proof fn lemma_ldexp_saturates(b: u32, e: i32)
    by (bit_vector)
    requires
        !is_zero(b),
        biased_exp(b) + e < 0 || biased_exp(b) + e > 0xff,
    ensures
        ldexp_pattern(b, e) == signed_infinity(b),
{
}

/// No-op identity: a zero shift returns any pattern unchanged, and a zero
/// pattern of either sign is unchanged by every shift.
pub proof fn lemma_ldexp_noop(b: u32, e: i32)
    ensures
        ldexp_pattern(b, 0) == b,
        is_zero(b) ==> ldexp_pattern(b, e) == b,
{
}

} // verus!
