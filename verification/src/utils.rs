//! Conversions between bytes and 16-bit words.

use vstd::prelude::*;

verus! {

/// The word whose more-significant byte is `high` and whose
/// less-significant byte is `low`.
pub open spec fn word_of(high: u8, low: u8) -> u16 {
    (high * 256 + low) as u16
}

/// The more-significant byte of `word`.
pub open spec fn high_byte_of(word: u16) -> u8 {
    (word / 256) as u8
}

/// The less-significant byte of `word`.
pub open spec fn low_byte_of(word: u16) -> u8 {
    (word % 256) as u8
}

/// Splitting a word into its two bytes and joining them again loses nothing.
pub proof fn lemma_word_of_bytes(word: u16)
    ensures
        word_of(high_byte_of(word), low_byte_of(word)) == word,
{
}

/// Joining two bytes and splitting the word again yields the same two bytes.
pub proof fn lemma_bytes_of_word(high: u8, low: u8)
    ensures
        high_byte_of(word_of(high, low)) == high,
        low_byte_of(word_of(high, low)) == low,
{
}

/// Joins two bytes into a word, `higher_byte` first.
pub fn bytes_to_word(higher_byte: u8, lower_byte: u8) -> (word: u16)
    ensures
        word == word_of(higher_byte, lower_byte),
{
    let word: u16 = ((higher_byte as u16) << 8) | (lower_byte as u16);
    assert(((higher_byte as u16) << 8) | (lower_byte as u16) == (higher_byte as u16) * 256
        + (lower_byte as u16)) by (bit_vector);
    word
}

/// Splits a word into its more-significant and less-significant byte.
pub fn word_to_bytes(word: u16) -> (bytes: (u8, u8))
    ensures
        bytes.0 == high_byte_of(word),
        bytes.1 == low_byte_of(word),
{
    let high: u8 = (word >> 8) as u8;
    let low: u8 = (word & 0xFF) as u8;
    assert(word >> 8 == word / 256 && (word >> 8) < 256) by (bit_vector);
    assert(word & 0xFF == word % 256 && (word & 0xFF) < 256) by (bit_vector);
    (high, low)
}

/// Whether bit `index` of `value` is set; bit 0 is the least significant.
pub open spec fn bit_is_set(value: u8, index: u8) -> bool {
    value & (1u8 << index) != 0
}

/// Tests bit `index` of `value`.
pub fn test_bit(value: u8, index: u8) -> (set: bool)
    requires
        index < 8,
    ensures
        set == bit_is_set(value, index),
{
    assert(index < 8 ==> ((value >> index) & 1 != 0) == (value & (1u8 << index) != 0))
        by (bit_vector);
    (value >> index) & 1 != 0
}

} // verus!
