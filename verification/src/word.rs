//! The machine word and the fields an instruction packs into it.
//!
//! A word is a 16-bit unsigned integer. Its high and low byte carry an opcode
//! and a pair of addressing-mode headers, or two characters of packed text.

use vstd::prelude::*;

verus! {

/// The upper eight bits of a word.
pub open spec fn high_byte(word: u16) -> u8 {
    (word >> 8) as u8
}

/// The lower eight bits of a word.
pub open spec fn low_byte(word: u16) -> u8 {
    (word & 0xff) as u8
}

/// The word whose upper eight bits are `high` and whose lower eight bits are `low`.
pub open spec fn pack_word(high: u8, low: u8) -> u16 {
    ((high as u16) << 8) | (low as u16)
}

/// The upper four bits of a byte.
pub open spec fn high_nibble(byte: u8) -> u8 {
    byte >> 4
}

/// The lower four bits of a byte.
pub open spec fn low_nibble(byte: u8) -> u8 {
    byte & 0xf
}

/// Sum of two words, reduced modulo 2^16.
pub open spec fn word_add(a: u16, b: u16) -> u16 {
    ((a + b) % 0x1_0000) as u16
}

/// Difference of two words, reduced modulo 2^16.
pub open spec fn word_sub(a: u16, b: u16) -> u16 {
    ((a - b) % 0x1_0000) as u16
}

/// Product of two words, reduced modulo 2^16.
pub open spec fn word_mul(a: u16, b: u16) -> u16 {
    ((a * b) % 0x1_0000) as u16
}

/// Quotient of two words, rounded down; there is none for a zero divisor.
pub open spec fn word_div(a: u16, b: u16) -> Option<u16> {
    if b == 0 {
        None
    } else {
        Some(a / b)
    }
}

/// Splits off the upper eight bits of `word`.
pub fn upper_byte(word: u16) -> (byte: u8)
    ensures
        byte == high_byte(word),
{
    assert(word >> 8 <= 0xff) by (bit_vector);
    (word >> 8) as u8
}

/// Splits off the lower eight bits of `word`.
pub fn lower_byte(word: u16) -> (byte: u8)
    ensures
        byte == low_byte(word),
{
    assert(word & 0xff <= 0xff) by (bit_vector);
    (word & 0xff) as u8
}

/// Joins two bytes into a word, `high` first.
pub fn join_bytes(high: u8, low: u8) -> (word: u16)
    ensures
        word == pack_word(high, low),
{
    ((high as u16) << 8) | (low as u16)
}

/// Adds two words, wrapping around at 2^16.
pub fn add_words(a: u16, b: u16) -> (sum: u16)
    ensures
        sum == word_add(a, b),
{
    a.wrapping_add(b)
}

/// Subtracts `b` from `a`, wrapping around below zero.
pub fn subtract_words(a: u16, b: u16) -> (difference: u16)
    ensures
        difference == word_sub(a, b),
{
    a.wrapping_sub(b)
}

/// Multiplies two words, wrapping around at 2^16.
pub fn multiply_words(a: u16, b: u16) -> (product: u16)
    ensures
        product == word_mul(a, b),
{
    a.wrapping_mul(b)
}

/// Divides `a` by `b`, rounding down; there is no quotient for a zero divisor.
pub fn divide_words(a: u16, b: u16) -> (quotient: Option<u16>)
    ensures
        quotient == word_div(a, b),
{
    if b == 0 {
        None
    } else {
        Some(a / b)
    }
}

/// The bytes of a word are its quotient and remainder by 256, and packing
/// them again gives the word back.
pub proof fn lemma_word_bytes(word: u16)
    ensures
        high_byte(word) == word / 256,
        low_byte(word) == word % 256,
        pack_word(high_byte(word), low_byte(word)) == word,
{
    assert((word >> 8) as u8 == word / 256) by (bit_vector);
    assert((word & 0xff) as u8 == word % 256) by (bit_vector);
    assert(((((word >> 8) as u8) as u16) << 8) | (((word & 0xff) as u8) as u16) == word)
        by (bit_vector);
}

/// Packing two bytes places the first in the high byte and the second in the
/// low byte, so the word is `256 * high + low`.
pub proof fn lemma_pack_word(high: u8, low: u8)
    ensures
        pack_word(high, low) == 256 * high + low,
        high_byte(pack_word(high, low)) == high,
        low_byte(pack_word(high, low)) == low,
{
    assert((((high as u16) << 8) | (low as u16)) == 256 * (high as u16) + (low as u16))
        by (bit_vector);
    assert((((((high as u16) << 8) | (low as u16)) >> 8) as u8) == high) by (bit_vector);
    assert((((((high as u16) << 8) | (low as u16)) & 0xff) as u8) == low) by (bit_vector);
}

/// The two nibbles of a byte are below 16, and are its quotient and
/// remainder by 16.
pub proof fn lemma_nibbles(byte: u8)
    ensures
        high_nibble(byte) == byte / 16,
        low_nibble(byte) == byte % 16,
        high_nibble(byte) < 16,
        low_nibble(byte) < 16,
{
    assert(byte >> 4 == byte / 16) by (bit_vector);
    assert(byte & 0xf == byte % 16) by (bit_vector);
}

/// Where the exact result fits in a word, the wrapping operations return it
/// unchanged.
pub proof fn lemma_wrap_free(a: u16, b: u16)
    ensures
        a + b <= 0xffff ==> word_add(a, b) == a + b,
        a - b >= 0 ==> word_sub(a, b) == a - b,
        a * b <= 0xffff ==> word_mul(a, b) == a * b,
        b != 0 ==> word_div(a, b) == Some((a / b) as u16),
{
    assert(0 <= a * b) by (nonlinear_arith)
        requires
            0 <= a,
            0 <= b,
    ;
}

} // verus!
