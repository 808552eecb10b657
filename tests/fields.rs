use float_parts::decode::{decode_fields, DecodedFields};
use float_parts::extract::{extract_fields, RawFields};
use float_parts::recompose::{recompose, ScaledValue};
use float_parts::{BIAS, FRACTION_BITS};

fn reassemble(f: RawFields) -> u32 {
    (f.sign << 31) | (f.exponent << 23) | f.fraction
}

#[test]
fn known_example_extracts() {
    let f = extract_fields(42.42f32.to_bits());
    assert_eq!(f, RawFields { sign: 0, exponent: 132, fraction: 2731540 });
}

#[test]
fn known_example_decodes() {
    let f = extract_fields(42.42f32.to_bits());
    let d = decode_fields(f.sign, f.exponent, f.fraction);
    assert_eq!(d, DecodedFields { sign_value: 1, exponent_power: 5, mantissa_scaled: 2731540 });
    let mantissa = d.mantissa_scaled as f64 / (1u64 << 23) as f64;
    assert!((mantissa - 0.325625).abs() < 1e-6);
    assert_eq!(2f64.powi(d.exponent_power), 32.0);
}

#[test]
fn known_example_recomposes_below_input() {
    let f = extract_fields(42.42f32.to_bits());
    let d = decode_fields(f.sign, f.exponent, f.fraction);
    let v = recompose(d.sign_value, d.exponent_power, d.mantissa_scaled);
    assert_eq!(v, ScaledValue { sign: 1, significand: 2731540, power: -18 });
    let value = v.sign as f64 * v.significand as f64 * 2f64.powi(v.power);
    assert!((value - 10.42).abs() < 1e-4);
    assert!(value < 42.42);
}

#[test]
fn fields_reassemble_to_the_pattern() {
    let values = [
        0.0f32,
        -0.0,
        1.0,
        -1.5,
        42.42,
        f32::MAX,
        f32::MIN,
        f32::MIN_POSITIVE,
        1e-45,
        f32::INFINITY,
        f32::NEG_INFINITY,
        f32::NAN,
    ];
    for v in values {
        let bits = v.to_bits();
        assert_eq!(reassemble(extract_fields(bits)), bits);
    }
    for bits in [0u32, 1, 0x7f_ffff, 0x80_0000, 0x8000_0000, 0xffff_ffff, 0x1234_5678] {
        assert_eq!(reassemble(extract_fields(bits)), bits);
    }
}

#[test]
fn fields_stay_within_their_widths() {
    let f = extract_fields(0xffff_ffff);
    assert_eq!(f, RawFields { sign: 1, exponent: 0xff, fraction: 0x7f_ffff });
    let f = extract_fields(0);
    assert_eq!(f, RawFields { sign: 0, exponent: 0, fraction: 0 });
}

#[test]
fn negative_one_extracts() {
    let f = extract_fields((-1.0f32).to_bits());
    assert_eq!(f, RawFields { sign: 1, exponent: 127, fraction: 0 });
}

#[test]
fn extraction_is_repeatable() {
    for v in [42.42f32, -3.25, f32::NAN, 0.0] {
        let bits = v.to_bits();
        assert_eq!(extract_fields(bits), extract_fields(bits));
    }
}

#[test]
fn sign_decodes_to_unit() {
    assert_eq!(decode_fields(0, 130, 77).sign_value, 1);
    assert_eq!(decode_fields(1, 130, 77).sign_value, -1);
    assert_eq!(decode_fields(1, 0, 0).sign_value, -1);
}

#[test]
fn bias_exponent_decodes_to_power_zero() {
    assert_eq!(BIAS, 127);
    for fraction in [0u32, 1, 0x40_0000, 0x7f_ffff] {
        let d = decode_fields(0, 127, fraction);
        assert_eq!(d.exponent_power, 0);
        assert_eq!(2f64.powi(d.exponent_power), 1.0);
    }
}

#[test]
fn zero_fraction_decodes_to_zero_mantissa() {
    for exponent in [0u32, 1, 127, 254, 255] {
        assert_eq!(decode_fields(1, exponent, 0).mantissa_scaled, 0);
    }
}

#[test]
fn reserved_exponents_decode_like_others() {
    assert_eq!(decode_fields(0, 0, 5).exponent_power, -127);
    assert_eq!(decode_fields(1, 255, 0).exponent_power, 128);
    assert_eq!(decode_fields(0, 255, 0x40_0000).mantissa_scaled, 0x40_0000);
}

#[test]
fn mantissa_sums_bit_weights() {
    assert_eq!(FRACTION_BITS, 23);
    // bit 22 weighs one half, bit 0 weighs 2^-23
    assert_eq!(decode_fields(0, 127, 0x40_0000).mantissa_scaled, 1 << 22);
    assert_eq!(decode_fields(0, 127, 1).mantissa_scaled, 1);
    assert_eq!(decode_fields(0, 127, 0x60_0001).mantissa_scaled, 0x60_0001);
    assert_eq!(decode_fields(0, 127, 0x7f_ffff).mantissa_scaled, 0x7f_ffff);
}

#[test]
fn recompose_scales_by_fraction_width() {
    assert_eq!(recompose(-1, -127, 3), ScaledValue { sign: -1, significand: 3, power: -150 });
    assert_eq!(recompose(1, 128, 0), ScaledValue { sign: 1, significand: 0, power: 105 });
}

#[test]
fn three_quarters_recomposes_without_leading_one() {
    // 0.75 is 1.5 * 2^-1: the fraction holds the 0.5, the leading one is left out
    let f = extract_fields(0.75f32.to_bits());
    let d = decode_fields(f.sign, f.exponent, f.fraction);
    let v = recompose(d.sign_value, d.exponent_power, d.mantissa_scaled);
    let value = v.sign as f64 * v.significand as f64 * 2f64.powi(v.power);
    assert_eq!(value, 0.25);
}
