//! Arithmetic on bytes and words as the processor does it, stated over the
//! integers, and the facts that tie the bit operations of the implementation
//! to it.

use vstd::prelude::*;

verus! {

/// The byte that is left of `value` in eight bits.
pub open spec fn wrap8(value: int) -> u8 {
    (value % 256) as u8
}

/// The word that is left of `value` in sixteen bits.
pub open spec fn wrap16(value: int) -> u16 {
    (value % 65536) as u16
}

/// The word with high byte `hi` and low byte `lo`.
pub open spec fn word(hi: u8, lo: u8) -> u16 {
    (hi * 256 + lo) as u16
}

/// The high byte of `value`.
pub open spec fn high_byte(value: u16) -> u8 {
    (value / 256) as u8
}

/// The low byte of `value`.
pub open spec fn low_byte(value: u16) -> u8 {
    (value % 256) as u8
}

/// The byte read as a signed number in two's complement.
pub open spec fn signed(byte: u8) -> i16 {
    if byte < 128 {
        byte as i16
    } else {
        (byte - 256) as i16
    }
}

/// Whether the byte is negative when read as a signed number: whether its
/// bit 7 is set.
pub open spec fn is_negative(value: u8) -> bool {
    value >= 0x80
}

/// Whether bit 6 of the byte is set.
pub open spec fn has_bit6(value: u8) -> bool {
    value & 0x40 != 0
}

/// Whether bit 0 of the byte is set.
pub open spec fn is_odd(value: u8) -> bool {
    value % 2 == 1
}

/// Whether two addresses lie in different 256-byte pages.
pub open spec fn pages_differ(from: u16, to: u16) -> bool {
    from / 256 != to / 256
}

/// Cutting to eight bits before an addition changes nothing of the sum's
/// low eight bits.
pub proof fn lemma_wrap8_add(value: int, more: int)
    ensures
        wrap8(wrap8(value) + more) == wrap8(value + more),
{
    vstd::arithmetic::div_mod::lemma_add_mod_noop_right(more, value, 256);
    assert((more + value % 256) % 256 == (more + value) % 256);
}

/// Shifting and joining two bytes gives the word that they spell.
pub proof fn lemma_word_from_bits(hi: u8, lo: u8)
    ensures
        ((hi as u16) << 8) | (lo as u16) == word(hi, lo),
{
    assert(((hi as u16) << 8) | (lo as u16) == (hi as u16) * 256 + (lo as u16)) by (bit_vector);
}

/// Shifting a word right by eight bits gives its high byte, cutting it to
/// eight bits its low byte.
pub proof fn lemma_bytes_from_bits(value: u16)
    ensures
        (value >> 8) == high_byte(value),
        (value & 0xFF) == low_byte(value),
{
    assert((value >> 8) == value / 256) by (bit_vector);
    assert((value & 0xFF) == value % 256) by (bit_vector);
}

/// The bit tests of a byte, stated over its value.
pub proof fn lemma_bit_tests(value: u8)
    ensures
        (value & 0x80 != 0) == is_negative(value),
        (value & 0x01 != 0) == is_odd(value),
{
    assert((value & 0x80 != 0) == (value >= 0x80)) by (bit_vector);
    assert((value & 0x01 != 0) == (value % 2 == 1)) by (bit_vector);
}

/// The shifts of a byte by one bit, stated over its value.
pub proof fn lemma_shifts(value: u8)
    ensures
        (value << 1) == wrap8(value * 2),
        (value >> 1) == value / 2,
{
    assert((value << 1) == (value * 2) % 256) by (bit_vector);
    assert((value >> 1) == value / 2) by (bit_vector);
}

/// The rotations of a byte by one bit through a carry, stated over its value.
pub proof fn lemma_rotations(value: u8, carry: bool)
    ensures
        ((value << 1) | if carry {
            1u8
        } else {
            0u8
        }) == wrap8(
            value * 2 + if carry {
                1int
            } else {
                0int
            },
        ),
        ((value >> 1) | if carry {
            0x80u8
        } else {
            0u8
        }) == value / 2 + if carry {
            128int
        } else {
            0int
        },
{
    assert(((value << 1) | 1) == (value * 2 + 1) % 256) by (bit_vector);
    assert(((value << 1) | 0) == (value * 2) % 256) by (bit_vector);
    assert(((value >> 1) | 0x80) == value / 2 + 128) by (bit_vector);
    assert(((value >> 1) | 0) == value / 2) by (bit_vector);
}

} // verus!
