//! The recomposer: multiplies the decoded sign, exponent magnitude and
//! mantissa into one value, held exactly as a signed multiple of a power of two.
use vstd::prelude::*;

use vstd::arithmetic::power2::lemma2_to64;

use crate::decode::{decoded_of, lemma_set_bit_weights_low_bits, neg_one_pow};
use crate::extract::{fields_of, lemma_fields_of_wf};
use crate::FRACTION_BITS;

verus! {

/// The value `sign * significand * 2^power`.
#[derive(Clone, Copy, Debug, PartialEq, Eq, Structural)]
pub struct ScaledValue {
    pub sign: i32,
    pub significand: u32,
    pub power: i32,
}

/// The product `sign_value * 2^exponent_power * (mantissa_scaled / 2^23)`,
/// that is `sign_value * mantissa_scaled * 2^(exponent_power - 23)`.
pub open spec fn product_of(sign_value: i32, exponent_power: i32, mantissa_scaled: u32) -> ScaledValue {
    ScaledValue {
        sign: sign_value,
        significand: mantissa_scaled,
        power: (exponent_power - FRACTION_BITS) as i32,
    }
}

/// Multiplies the decoded sign, the exponent magnitude `2^exponent_power` and
/// the mantissa `mantissa_scaled / 2^23`, in that order.
pub fn recompose(sign_value: i32, exponent_power: i32, mantissa_scaled: u32) -> (r: ScaledValue)
    requires
        exponent_power >= i32::MIN + 23,
    ensures
        r == product_of(sign_value, exponent_power, mantissa_scaled),
        r.sign == sign_value,
        r.significand == mantissa_scaled,
        r.power == exponent_power - 23,
{
    ScaledValue { sign: sign_value, significand: mantissa_scaled, power: exponent_power - FRACTION_BITS as i32 }
}

/// Running the whole pipeline on a bit pattern gives `(-1)^sign * fraction *
/// 2^(exponent - 150)`: the significand is the raw fraction field, without
/// the implicit leading one of normalized numbers.
pub proof fn lemma_pipeline(bits: u32)
    ensures
        ({
            let f = fields_of(bits);
            let d = decoded_of(f.sign, f.exponent, f.fraction);
            product_of(d.sign_value, d.exponent_power, d.mantissa_scaled) == ScaledValue {
                sign: neg_one_pow(f.sign as nat) as i32,
                significand: f.fraction,
                power: (f.exponent - 150) as i32,
            }
        }),
{
    let f = fields_of(bits);
    lemma_fields_of_wf(bits);
    lemma_set_bit_weights_low_bits(f.fraction as nat, 23);
    lemma2_to64();
}

} // verus!
