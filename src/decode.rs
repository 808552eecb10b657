//! The field decoder: turns raw fields into exact integer forms of the
//! sign, the exponent magnitude and the mantissa that they encode.
use vstd::prelude::*;
use vstd::arithmetic::div_mod::lemma_mod_breakdown;
use vstd::arithmetic::power2::{lemma2_to64, lemma_pow2_pos, lemma_pow2_unfold, pow2};
use vstd::bits::{lemma_u32_pow2_no_overflow, lemma_u32_shl_is_mul, lemma_u32_shr_is_div};

use crate::{BIAS, FRACTION_BITS};

verus! {

/// The decoded meaning of the three raw fields, held exactly.
///
/// The sign is `sign_value` (+1 or -1); the exponent magnitude is
/// `2^exponent_power`; the mantissa is `mantissa_scaled / 2^23`, a value in
/// [0, 1) without the implicit leading one of normalized numbers.
#[derive(Clone, Copy, Debug, PartialEq, Eq, Structural)]
pub struct DecodedFields {
    pub sign_value: i32,
    pub exponent_power: i32,
    pub mantissa_scaled: u32,
}

/// (-1) raised to the power `n`.
pub open spec fn neg_one_pow(n: nat) -> int
    decreases n,
{
    if n == 0 {
        1
    } else {
        -neg_one_pow((n - 1) as nat)
    }
}

/// Whether bit `i` of `f` is set.
pub open spec fn bit_set(f: nat, i: nat) -> bool {
    (f / pow2(i)) % 2 == 1
}

/// The sum of `2^i` over the set bits `i < n` of `f`: the mantissa as a sum
/// of the bit weights `2^(i-23)`, scaled by `2^23`.
pub open spec fn set_bit_weights(f: nat, n: nat) -> nat
    decreases n,
{
    if n == 0 {
        0
    } else {
        let i = (n - 1) as nat;
        set_bit_weights(f, i) + if bit_set(f, i) {
            pow2(i)
        } else {
            0
        }
    }
}

/// What the decoder yields for in-range raw fields.
pub open spec fn decoded_of(sign: u32, exponent: u32, fraction: u32) -> DecodedFields {
    DecodedFields {
        sign_value: neg_one_pow(sign as nat) as i32,
        exponent_power: (exponent - BIAS) as i32,
        mantissa_scaled: set_bit_weights(fraction as nat, FRACTION_BITS as nat) as u32,
    }
}

/// The weights of the set bits below `n` add up to the low `n` bits of `f`.
pub proof fn lemma_set_bit_weights_low_bits(f: nat, n: nat)
    ensures
        set_bit_weights(f, n) == f % pow2(n),
    decreases n,
{
    if n == 0 {
        lemma2_to64();
    } else {
        let i = (n - 1) as nat;
        lemma_set_bit_weights_low_bits(f, i);
        lemma_pow2_unfold(n);
        lemma_pow2_pos(i);
        lemma_mod_breakdown(f as int, pow2(i) as int, 2);
        assert(f % pow2(n) == pow2(i) * ((f / pow2(i)) % 2) + f % pow2(i));
    }
}

/// Decodes raw fields: the sign into (-1)^sign, the exponent into the power
/// `exponent - 127` of two, and the fraction into the sum of the weights of
/// its set bits.
pub fn decode_fields(sign: u32, exponent: u32, fraction: u32) -> (r: DecodedFields)
    requires
        sign <= 1,
        exponent <= 0xff,
        fraction <= 0x7f_ffff,
    ensures
        r == decoded_of(sign, exponent, fraction),
        sign == 0 ==> r.sign_value == 1,
        sign == 1 ==> r.sign_value == -1,
        r.exponent_power == exponent - 127,
        -127 <= r.exponent_power <= 128,
        exponent == 127 ==> r.exponent_power == 0,
        r.mantissa_scaled == fraction,
        fraction == 0 ==> r.mantissa_scaled == 0,
{
    let sign_value: i32 = 1 - 2 * (sign as i32);
    assert(neg_one_pow(1) == -1) by {
        reveal_with_fuel(neg_one_pow, 2);
    }
    let exponent_power: i32 = exponent as i32 - BIAS;

    let mut mantissa_scaled: u32 = 0;
    let mut i: u32 = 0;
    while i < FRACTION_BITS
        invariant
            i <= FRACTION_BITS,
            mantissa_scaled == set_bit_weights(fraction as nat, i as nat),
        decreases FRACTION_BITS - i,
    {
        proof {
            lemma_u32_pow2_no_overflow(i as nat);
            lemma_u32_shl_is_mul(1, i);
            lemma_u32_shr_is_div(fraction, i);
            lemma_set_bit_weights_low_bits(fraction as nat, i as nat);
            lemma_pow2_unfold((i + 1) as nat);
            lemma_pow2_pos(i as nat);
            lemma2_to64();
        }
        let mask: u32 = 1u32 << i;
        assert((fraction & mask != 0) == ((fraction >> i) % 2 == 1)) by (bit_vector)
            requires
                mask == 1u32 << i,
                i < 32,
        ;
        if fraction & mask != 0 {
            mantissa_scaled = mantissa_scaled + mask;
        }
        i = i + 1;
    }
    proof {
        lemma_set_bit_weights_low_bits(fraction as nat, FRACTION_BITS as nat);
        lemma2_to64();
    }
    DecodedFields { sign_value, exponent_power, mantissa_scaled }
}

} // verus!
