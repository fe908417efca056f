//! frexp / ldexp on raw IEEE-754 binary64 bit patterns.
//!
//! A binary64 pattern `b: u64` is read as sign (bit 63), biased exponent
//! (bits 52..=62, bias 1023) and fraction (bits 0..=51). A normal value with
//! biased exponent `E` and fraction `f` encodes
//! `(-1)^sign * (1 + f / 2^52) * 2^(E - 1023)`; a biased exponent of `0x3fe`
//! therefore puts the magnitude in `[0.5, 1.0)`.

use vstd::prelude::*;

verus! {

/// The sign bit (bit 63): 0 for a positive pattern, 1 for a negative one.
pub open spec fn sign_bit(b: u64) -> u64 {
    b >> 63
}

/// The 11-bit biased exponent field (bits 52..=62).
pub open spec fn biased_exp(b: u64) -> u64 {
    (b >> 52) & 0x7ff
}

/// The 52-bit fraction field (bits 0..=51).
pub open spec fn frac_field(b: u64) -> u64 {
    b & 0xf_ffff_ffff_ffff
}

/// A pattern encoding zero of either sign: everything but the sign bit clear.
pub open spec fn is_zero(b: u64) -> bool {
    b & 0x7fff_ffff_ffff_ffff == 0
}

/// A normal value: finite, non-zero and non-subnormal, i.e. the biased
/// exponent is neither 0 (zero/subnormal) nor 0x7ff (infinity/NaN).
pub open spec fn is_normal(b: u64) -> bool {
    1 <= biased_exp(b) && biased_exp(b) <= 0x7fe
}

/// The infinity pattern carrying the sign of `b`.
pub open spec fn signed_infinity(b: u64) -> u64 {
    if sign_bit(b) == 1 {
        0xfff0_0000_0000_0000u64
    } else {
        0x7ff0_0000_0000_0000u64
    }
}

/// The mantissa half of decomposition: the input's sign and fraction with the
/// biased exponent forced to 0x3fe, so the encoded magnitude lies in
/// [0.5, 1.0). A zero input gives the positive-zero pattern.
pub open spec fn frexp_mantissa(b: u64) -> u64 {
    if is_zero(b) {
        0u64
    } else {
        (b & 0x8000_0000_0000_0000) | 0x3fe0_0000_0000_0000 | frac_field(b)
    }
}

/// The exponent half of decomposition: the power of two that scales a
/// magnitude in [0.5, 1.0) back to the input, i.e. the unbiased exponent
/// plus one. A zero input gives 0.
pub open spec fn frexp_exponent(b: u64) -> i32 {
    if is_zero(b) {
        0i32
    } else {
        (biased_exp(b) - 1022) as i32
    }
}

/// Recomposition on patterns: add `e` to the biased exponent, keeping sign
/// and fraction. A zero pattern or a zero shift passes through unchanged; a
/// sum outside [0, 0x7ff] saturates to infinity with the input's sign.
pub open spec fn ldexp_pattern(b: u64, e: i32) -> u64 {
    if is_zero(b) || e == 0 {
        b
    } else if biased_exp(b) + e < 0 || biased_exp(b) + e > 0x7ff {
        signed_infinity(b)
    } else {
        (b & 0x800f_ffff_ffff_ffff) | (((biased_exp(b) + e) as u64) << 52)
    }
}

/// Split a binary64 pattern into a mantissa pattern with magnitude in
/// [0.5, 1.0) and a binary exponent, so that mantissa * 2^exponent encodes
/// the same value. Either zero pattern yields (positive zero, 0).
pub fn frexp_bits(bits: u64) -> (r: (u64, i32))
    ensures
        r.0 == frexp_mantissa(bits),
        r.1 == frexp_exponent(bits),
        is_zero(bits) ==> r.0 == 0 && r.1 == 0,
        !is_zero(bits) ==> biased_exp(r.0) == 0x3fe,
        !is_zero(bits) ==> sign_bit(r.0) == sign_bit(bits),
        !is_zero(bits) ==> frac_field(r.0) == frac_field(bits),
        !is_zero(bits) ==> r.1 == biased_exp(bits) - 1022,
{
    if bits & 0x7fff_ffff_ffff_ffff == 0 {
        return (0u64, 0i32);
    }
    let biased: u64 = (bits >> 52) & 0x7ff;
    let mantissa: u64 = (bits & 0x8000_0000_0000_0000) | 0x3fe0_0000_0000_0000 | (bits
        & 0xf_ffff_ffff_ffff);
    proof {
        assert(biased <= 0x7ff) by (bit_vector)
            requires
                biased == (bits >> 52) & 0x7ff,
        ;
        assert((mantissa >> 52) & 0x7ff == 0x3fe && mantissa >> 63 == bits >> 63 && mantissa
            & 0xf_ffff_ffff_ffff == bits & 0xf_ffff_ffff_ffff) by (bit_vector)
            requires
                mantissa == (bits & 0x8000_0000_0000_0000) | 0x3fe0_0000_0000_0000 | (bits
                    & 0xf_ffff_ffff_ffff),
        ;
    }
    let e: i32 = (biased as i32) - 1022;
    (mantissa, e)
}

/// Scale a binary64 pattern by 2^exp: the biased exponent grows by `exp`
/// while sign and fraction stay as they are. A zero pattern or a zero `exp`
/// comes back unchanged; a biased exponent pushed outside [0, 0x7ff]
/// saturates to infinity with the input's sign, for underflow as well as
/// overflow.
pub fn ldexp_bits(bits: u64, exp: i32) -> (r: u64)
    ensures
        r == ldexp_pattern(bits, exp),
        exp == 0 ==> r == bits,
        is_zero(bits) ==> r == bits,
        !is_zero(bits) && 0 <= biased_exp(bits) + exp <= 0x7ff ==> sign_bit(r) == sign_bit(bits)
            && frac_field(r) == frac_field(bits) && biased_exp(r) == biased_exp(bits) + exp,
        !is_zero(bits) && !(0 <= biased_exp(bits) + exp <= 0x7ff) ==> r == signed_infinity(bits),
{
    if bits & 0x7fff_ffff_ffff_ffff == 0 || exp == 0 {
        proof {
            assert((bits >> 52) & 0x7ff <= 0x7ff) by (bit_vector);
        }
        return bits;
    }
    let biased: u64 = (bits >> 52) & 0x7ff;
    proof {
        assert(biased <= 0x7ff && (bits >> 63 == 0 || bits >> 63 == 1)) by (bit_vector)
            requires
                biased == (bits >> 52) & 0x7ff,
        ;
    }
    let ne: i64 = biased as i64 + exp as i64;
    if ne < 0 || ne > 0x7ff {
        if bits >> 63 != 0 {
            0xfff0_0000_0000_0000
        } else {
            0x7ff0_0000_0000_0000
        }
    } else {
        let nu: u64 = ne as u64;
        let r: u64 = (bits & 0x800f_ffff_ffff_ffff) | (nu << 52);
        proof {
            assert(r >> 63 == bits >> 63 && r & 0xf_ffff_ffff_ffff == bits & 0xf_ffff_ffff_ffff
                && (r >> 52) & 0x7ff == nu) by (bit_vector)
                requires
                    nu <= 0x7ff,
                    r == (bits & 0x800f_ffff_ffff_ffff) | (nu << 52),
            ;
        }
        r
    }
}

/// Round-trip identity: recomposing the mantissa and exponent that
/// decomposition produced from a normal pattern gives back exactly the
/// original pattern, bit for bit.
pub proof fn lemma_frexp_ldexp_round_trip(b: u64)
    by (bit_vector)
    requires
        is_normal(b),
    ensures
        ldexp_pattern(frexp_mantissa(b), frexp_exponent(b)) == b,
{
}

/// Range invariant: the mantissa produced from a normal pattern carries
/// biased exponent 0x3fe and is itself normal, i.e. its magnitude lies in
/// [0.5, 1.0).
pub proof fn lemma_frexp_mantissa_in_range(b: u64)
    by (bit_vector)
    requires
        is_normal(b),
    ensures
        biased_exp(frexp_mantissa(b)) == 0x3fe,
        is_normal(frexp_mantissa(b)),
{
}

/// Zero case: either zero pattern, positive or negative, decomposes to the
/// positive-zero pattern and exponent 0.
pub proof fn lemma_frexp_zero(b: u64)
    requires
        is_zero(b),
    ensures
        frexp_mantissa(b) == 0,
        frexp_exponent(b) == 0,
{
}

/// Saturation: a shift that pushes a non-zero pattern's biased exponent
/// outside [0, 0x7ff] — above as well as below — yields the infinity
/// pattern with the input's sign.
pub proof fn lemma_ldexp_saturates(b: u64, e: i32)
    by (bit_vector)
    requires
        !is_zero(b),
        biased_exp(b) + e < 0 || biased_exp(b) + e > 0x7ff,
    ensures
        ldexp_pattern(b, e) == signed_infinity(b),
{
}

/// No-op identity: a zero shift returns any pattern unchanged, and a zero
/// pattern of either sign is unchanged by every shift.
pub proof fn lemma_ldexp_noop(b: u64, e: i32)
    ensures
        ldexp_pattern(b, 0) == b,
        is_zero(b) ==> ldexp_pattern(b, e) == b,
{
}

} // verus!
