//! Bit and bit-field access on 32-bit words.

use vstd::arithmetic::power2::{lemma2_to64, pow2};
use vstd::bits::{
    low_bits_mask,    lemma_u32_low_bits_mask_is_mod, lemma_u32_pow2_no_overflow, lemma_u32_shl_is_mul,
    lemma_u32_shr_is_div,
};
use vstd::prelude::*;

verus! {

/// Bit `index` of `word`, counted from the least significant bit.
pub open spec fn bit_at(word: u32, index: u32) -> bool {
    (word >> index) & 1 == 1
}

/// The field of `word` made of bits `low..=high`, moved down to bit 0.
pub open spec fn bit_field(word: u32, low: u32, high: u32) -> u32 {
    (word >> low) & (0xFFFF_FFFFu32 >> ((31 - (high - low)) as u32))
}

/// The word read as a number in two's complement.
pub open spec fn signed(word: u32) -> int {
    if word < 0x8000_0000 {
        word as int
    } else {
        word - 0x1_0000_0000
    }
}

/// Reads one bit of a word.
pub fn get_bit(word: u32, index: u32) -> (set: bool)
    requires
        index < 32,
    ensures
        set == bit_at(word, index),
{
    (word >> index) & 1 == 1
}

/// Reads the bits `low..=high` of a word as a number.
pub fn get_bits(word: u32, low: u32, high: u32) -> (field: u32)
    requires
        low <= high < 32,
    ensures
        field == bit_field(word, low, high),
{
    let width: u32 = high - low;
    (word >> low) & (0xFFFF_FFFFu32 >> (31 - width))
}

/// A field holds the bits of the word from `low` up to `high`, bit `low` of
/// the word being bit 0 of the field, and nothing above them.
pub proof fn lemma_bit_field_bits(word: u32, low: u32, high: u32, index: u32)
    requires
        low <= high < 32,
        index < 32,
    ensures
        bit_at(bit_field(word, low, high), index) == (index <= high - low && bit_at(
            word,
            (low + index) as u32,
        )),
{
    assert((((word >> low) & (0xFFFF_FFFFu32 >> ((31 - (high - low)) as u32))) >> index) & 1 == 1 <==> (
    index <= high - low && (word >> ((low + index) as u32)) & 1 == 1)) by (bit_vector)
        requires
            low <= high < 32,
            index < 32,
    ;
}

/// Read as a number, bit `index` of a word is the binary digit of weight 2
/// to the `index`.
pub proof fn lemma_bit_is_binary_digit(word: u32, index: u32)
    requires
        index < 32,
    ensures
        bit_at(word, index) == ((word as nat / pow2(index as nat)) % 2 == 1),
{
    lemma_u32_shr_is_div(word, index);
    let shifted = word >> index;
    assert(shifted & 1 == shifted % 2) by (bit_vector);
}

/// Read as a number, the field of bits `low..=high` is the word divided by 2
/// to the `low`, taken modulo 2 to the number of bits of the field.
pub proof fn lemma_bit_field_is_quotient(word: u32, low: u32, high: u32)
    requires
        low <= high < 32,
    ensures
        bit_field(word, low, high) == (word as nat / pow2(low as nat)) % pow2(
            (high - low + 1) as nat,
        ),
{
    let width = (high - low + 1) as u32;
    let shifted = word >> low;
    lemma_u32_shr_is_div(word, low);
    lemma2_to64();
    if width == 32 {
        assert(shifted & (0xFFFF_FFFFu32 >> 0u32) == shifted) by (bit_vector);
        assert(bit_field(word, low, high) == shifted);
        assert(shifted as nat % pow2(32) == shifted);
    } else {
        assert(0xFFFF_FFFFu32 >> ((32 - width) as u32) == (1u32 << width) - 1) by (bit_vector)
            requires
                1 <= width < 32,
        ;
        lemma_u32_pow2_no_overflow(width as nat);
        lemma_u32_shl_is_mul(1, width);
        lemma_u32_low_bits_mask_is_mod(shifted, width as nat);
        assert(bit_field(word, low, high) == shifted & (low_bits_mask(width as nat) as u32));
        assert(bit_field(word, low, high) == shifted % (pow2(width as nat) as u32));
    }
}

/// A word is determined by its 32 bits.
pub proof fn lemma_equal_bits_equal_words(first: u32, second: u32)
    requires
        forall|index: u32| index < 32 ==> bit_at(first, index) == bit_at(second, index),
    ensures
        first == second,
{
    assert(first == second) by (bit_vector)
        requires
            bit_at(first, 0) == bit_at(second, 0),
            bit_at(first, 1) == bit_at(second, 1),
            bit_at(first, 2) == bit_at(second, 2),
            bit_at(first, 3) == bit_at(second, 3),
            bit_at(first, 4) == bit_at(second, 4),
            bit_at(first, 5) == bit_at(second, 5),
            bit_at(first, 6) == bit_at(second, 6),
            bit_at(first, 7) == bit_at(second, 7),
            bit_at(first, 8) == bit_at(second, 8),
            bit_at(first, 9) == bit_at(second, 9),
            bit_at(first, 10) == bit_at(second, 10),
            bit_at(first, 11) == bit_at(second, 11),
            bit_at(first, 12) == bit_at(second, 12),
            bit_at(first, 13) == bit_at(second, 13),
            bit_at(first, 14) == bit_at(second, 14),
            bit_at(first, 15) == bit_at(second, 15),
            bit_at(first, 16) == bit_at(second, 16),
            bit_at(first, 17) == bit_at(second, 17),
            bit_at(first, 18) == bit_at(second, 18),
            bit_at(first, 19) == bit_at(second, 19),
            bit_at(first, 20) == bit_at(second, 20),
            bit_at(first, 21) == bit_at(second, 21),
            bit_at(first, 22) == bit_at(second, 22),
            bit_at(first, 23) == bit_at(second, 23),
            bit_at(first, 24) == bit_at(second, 24),
            bit_at(first, 25) == bit_at(second, 25),
            bit_at(first, 26) == bit_at(second, 26),
            bit_at(first, 27) == bit_at(second, 27),
            bit_at(first, 28) == bit_at(second, 28),
            bit_at(first, 29) == bit_at(second, 29),
            bit_at(first, 30) == bit_at(second, 30),
            bit_at(first, 31) == bit_at(second, 31),
    ;
}

} // verus!
