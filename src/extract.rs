//! The bit extractor: splits a 32-bit pattern into its three raw fields.
use vstd::prelude::*;

verus! {

/// The three raw fields of a single-precision bit pattern.
#[derive(Clone, Copy, Debug, PartialEq, Eq, Structural)]
pub struct RawFields {
    /// Bit 31.
    pub sign: u32,
    /// Bits 23 to 30.
    pub exponent: u32,
    /// Bits 0 to 22.
    pub fraction: u32,
}

impl RawFields {
    /// Each field fits its width: one bit, eight bits, twenty-three bits.
    pub open spec fn wf(self) -> bool {
        &&& self.sign <= 1
        &&& self.exponent <= 0xff
        &&& self.fraction <= 0x7f_ffff
    }

    /// The 32-bit pattern that holds the fields at their positions.
    pub open spec fn assembled(self) -> u32 {
        (self.sign << 31u32) | (self.exponent << 23u32) | self.fraction
    }
}

/// The fields of `bits`: the sign at bit 31, the exponent at bits 23 to 30,
/// the fraction at bits 0 to 22.
pub open spec fn fields_of(bits: u32) -> RawFields {
    RawFields {
        sign: (bits >> 31u32) & 1,
        exponent: (bits >> 23u32) & 0xff,
        fraction: bits & 0x7f_ffff,
    }
}

/// The fields of any bit pattern fit their widths.
pub proof fn lemma_fields_of_wf(bits: u32)
    ensures
        fields_of(bits).wf(),
{
    assert((bits >> 31u32) & 1 <= 1 && (bits >> 23u32) & 0xff <= 0xff && bits & 0x7f_ffff
        <= 0x7f_ffff) by (bit_vector);
}

/// Splits the bit pattern of a single-precision value into its raw fields.
pub fn extract_fields(bits: u32) -> (r: RawFields)
    ensures
        r == fields_of(bits),
        r.wf(),
        r.sign as int == bits as int / 0x8000_0000,
        r.exponent as int == (bits as int / 0x80_0000) % 0x100,
        r.fraction as int == bits as int % 0x80_0000,
{
    let sign = (bits >> 31u32) & 1;
    let exponent = (bits >> 23u32) & 0xff;
    let fraction = bits & 0x7f_ffff;
    proof {
        lemma_fields_of_wf(bits);
    }
    assert(sign == bits / 0x8000_0000 && exponent == (bits / 0x80_0000) % 0x100
        && fraction == bits % 0x80_0000) by (bit_vector)
        requires
            sign == (bits >> 31u32) & 1,
            exponent == (bits >> 23u32) & 0xff,
            fraction == bits & 0x7f_ffff,
    ;
    RawFields { sign, exponent, fraction }
}

/// Reassembling the extracted fields at their positions gives back the
/// original bit pattern, whatever the pattern.
pub proof fn lemma_fields_reassemble(bits: u32)
    ensures
        fields_of(bits).assembled() == bits,
{
    assert((((bits >> 31u32) & 1) << 31u32) | (((bits >> 23u32) & 0xff) << 23u32) | (bits
        & 0x7f_ffff) == bits) by (bit_vector);
}

/// Extracting the fields of the pattern assembled from in-range fields gives
/// back those fields.
pub proof fn lemma_assembled_extracts(f: RawFields)
    requires
        f.wf(),
    ensures
        fields_of(f.assembled()) == f,
{
    let (s, e, x) = (f.sign, f.exponent, f.fraction);
    let b = (s << 31u32) | (e << 23u32) | x;
    assert((b >> 31u32) & 1 == s && (b >> 23u32) & 0xff == e && b & 0x7f_ffff == x) by (bit_vector)
        requires
            s <= 1,
            e <= 0xff,
            x <= 0x7f_ffff,
            b == (s << 31u32) | (e << 23u32) | x,
    ;
}

/// Extraction depends on the pattern alone: two results that both meet the
/// contract of `extract_fields` for one pattern are equal.
pub proof fn lemma_extraction_deterministic(bits: u32, first: RawFields, second: RawFields)
    requires
        first == fields_of(bits),
        second == fields_of(bits),
    ensures
        first == second,
{
}

} // verus!
