//! Byte and word helpers shared by the register file, the bus and the
//! instruction executor: splitting 16-bit words into bytes and back, and
//! the facts relating the two directions.

use vstd::prelude::*;

verus! {

/// The high byte of a 16-bit word.
pub open spec fn hi_byte(v: u16) -> u8 {
    ((v & 0xFF00) >> 8) as u8
}

/// The low byte of a 16-bit word.
pub open spec fn lo_byte(v: u16) -> u8 {
    (v & 0x00FF) as u8
}

/// The 16-bit word with high byte `hi` and low byte `lo`.
pub open spec fn word_of(hi: u8, lo: u8) -> u16 {
    ((hi as u16) << 8) | (lo as u16)
}

/// Splitting a word into bytes and joining them are mutually inverse.
pub proof fn lemma_word_bytes()
    by (bit_vector)
    ensures
        forall|v: u16| #![trigger word_of(hi_byte(v), lo_byte(v))]
            word_of(hi_byte(v), lo_byte(v)) == v,
        forall|h: u8, l: u8| #![trigger word_of(h, l)]
            hi_byte(word_of(h, l)) == h && lo_byte(word_of(h, l)) == l,
{
}

/// Executable split: the high byte of `v`.
pub fn hi_of(v: u16) -> (r: u8)
    ensures
        r == hi_byte(v),
{
    ((v & 0xFF00) >> 8) as u8
}

/// Executable split: the low byte of `v`.
pub fn lo_of(v: u16) -> (r: u8)
    ensures
        r == lo_byte(v),
{
    (v & 0x00FF) as u8
}

/// Executable join of two bytes into a word.
pub fn word_from(hi: u8, lo: u8) -> (r: u16)
    ensures
        r == word_of(hi, lo),
{
    ((hi as u16) << 8) | (lo as u16)
}

/// Wrapping 16-bit increment.
pub open spec fn word_inc(v: u16) -> u16 {
    if v == 0xFFFF {
        0
    } else {
        (v + 1) as u16
    }
}

/// Wrapping 16-bit decrement.
pub open spec fn word_dec(v: u16) -> u16 {
    if v == 0 {
        0xFFFF
    } else {
        (v - 1) as u16
    }
}

/// Executable wrapping 16-bit increment.
pub fn word_inc_of(v: u16) -> (r: u16)
    ensures
        r == word_inc(v),
{
    if v == 0xFFFF {
        0
    } else {
        v + 1
    }
}

/// Executable wrapping 16-bit decrement.
pub fn word_dec_of(v: u16) -> (r: u16)
    ensures
        r == word_dec(v),
{
    if v == 0 {
        0xFFFF
    } else {
        v - 1
    }
}

/// Wrapping 16-bit addition.
pub open spec fn word_add(a: u16, b: u16) -> u16 {
    (((a + b) % 0x10000) as u16)
}

/// Executable wrapping 16-bit addition.
pub fn word_add_of(a: u16, b: u16) -> (r: u16)
    ensures
        r == word_add(a, b),
{
    ((a as u32 + b as u32) % 0x10000) as u16
}

/// Wrapping 8-bit increment.
pub open spec fn byte_inc(v: u8) -> u8 {
    if v == 0xFF {
        0
    } else {
        (v + 1) as u8
    }
}

/// Wrapping 8-bit decrement.
pub open spec fn byte_dec(v: u8) -> u8 {
    if v == 0 {
        0xFF
    } else {
        (v - 1) as u8
    }
}

/// Wrapping 8-bit addition.
pub open spec fn byte_add(a: u8, b: u8) -> u8 {
    (((a + b) % 0x100) as u8)
}

/// Executable wrapping 8-bit addition.
pub fn byte_add_of(a: u8, b: u8) -> (r: u8)
    ensures
        r == byte_add(a, b),
{
    ((a as u16 + b as u16) % 0x100) as u8
}

/// Executable wrapping 8-bit increment.
pub fn byte_inc_of(v: u8) -> (r: u8)
    ensures
        r == byte_inc(v),
{
    if v == 0xFF {
        0
    } else {
        v + 1
    }
}

/// Executable wrapping 8-bit decrement.
pub fn byte_dec_of(v: u8) -> (r: u8)
    ensures
        r == byte_dec(v),
{
    if v == 0 {
        0xFF
    } else {
        v - 1
    }
}

} // verus!
