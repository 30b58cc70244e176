//! Register codec: raw 16-bit registers to sample values.

use crate::config::ModbusValueType;
use vstd::prelude::*;

verus! {

/// The numeric value of one sample.
///
/// A float is carried as the bit pattern of its IEEE-754 single-precision
/// encoding, so that the value passes through the engine bit for bit.
#[derive(Debug, Clone, Copy, PartialEq, Eq, Hash)]
pub enum SampleValue {
    /// A whole number: the unsigned value of a register, or 0 or 1 for a coil.
    Integer(i64),
    /// The 32 bits of an IEEE-754 single-precision number.
    FloatBits(u32),
}

/// The 32-bit word whose high half is `hi` and whose low half is `lo`.
pub open spec fn float_word(hi: u16, lo: u16) -> u32 {
    ((hi as u32) << 16) | (lo as u32)
}

/// The value that `raw` stands for when read as a tag of kind `kind`.
/// Meaningful where `raw` has as many registers as the kind asks for.
pub open spec fn decoded(kind: ModbusValueType, raw: Seq<u16>) -> SampleValue {
    match kind {
        ModbusValueType::IntInput | ModbusValueType::IntHolding => SampleValue::Integer(
            raw[0] as i64,
        ),
        ModbusValueType::RealInput | ModbusValueType::RealHolding => SampleValue::FloatBits(
            float_word(raw[0], raw[1]),
        ),
        ModbusValueType::Coil => SampleValue::Integer(
            if raw[0] == 0 {
                0
            } else {
                1
            },
        ),
    }
}

/// The halves of `float_word(hi, lo)` are `hi` and `lo` again, and the word
/// counts `hi` in units of 65536 plus `lo`: the two registers are laid side
/// by side, the first one on top, and no bit is changed.
pub proof fn lemma_float_word_keeps_both_halves(hi: u16, lo: u16)
    ensures
        float_word(hi, lo) >> 16 == hi,
        float_word(hi, lo) & 0xffff == lo,
        float_word(hi, lo) == hi * 65536 + lo,
{
    assert((((hi as u32) << 16) | (lo as u32)) >> 16 == hi as u32) by (bit_vector);
    assert((((hi as u32) << 16) | (lo as u32)) & 0xffff == lo as u32) by (bit_vector);
    assert((((hi as u32) << 16) | (lo as u32)) == (hi as u32) * 65536 + (lo as u32))
        by (bit_vector);
}

/// Two register pairs give the same word only if they are the same pair.
pub proof fn lemma_float_word_is_injective(hi1: u16, lo1: u16, hi2: u16, lo2: u16)
    requires
        float_word(hi1, lo1) == float_word(hi2, lo2),
    ensures
        hi1 == hi2,
        lo1 == lo2,
{
    lemma_float_word_keeps_both_halves(hi1, lo1);
    lemma_float_word_keeps_both_halves(hi2, lo2);
}

/// Joins the two registers of a float tag into the bit pattern of the
/// float: the first register read supplies the high-order 16 bits, the
/// second the low-order 16 bits.
pub fn float_bits(hi: u16, lo: u16) -> (word: u32)
    ensures
        word == float_word(hi, lo),
        word == hi * 65536 + lo,
{
    proof {
        lemma_float_word_keeps_both_halves(hi, lo);
    }
    ((hi as u32) << 16) | (lo as u32)
}

/// Widens one register to a sample integer. The register is unsigned:
/// `0xFFFF` is 65535.
pub fn integer_value(register: u16) -> (value: i64)
    ensures
        value == register,
{
    register as i64
}

/// Turns the registers read for a tag of kind `kind` into its sample value.
///
/// The caller hands over exactly the registers that the kind asks for.
pub fn decode(kind: ModbusValueType, raw: &[u16]) -> (value: SampleValue)
    requires
        raw@.len() == kind.register_count(),
    ensures
        value == decoded(kind, raw@),
{
    match kind {
        ModbusValueType::IntInput | ModbusValueType::IntHolding => SampleValue::Integer(
            integer_value(raw[0]),
        ),
        ModbusValueType::RealInput | ModbusValueType::RealHolding => SampleValue::FloatBits(
            float_bits(raw[0], raw[1]),
        ),
        ModbusValueType::Coil => SampleValue::Integer(
            if raw[0] == 0 {
                0
            } else {
                1
            },
        ),
    }
}

} // verus!
