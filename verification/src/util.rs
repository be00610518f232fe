//! Bit-field helpers shared by the decoders and the register parsers.

use vstd::prelude::*;

verus! {

/// Masking never yields more than the mask.
pub proof fn lemma_mask_u32(x: u32, m: u32)
    by (bit_vector)
    ensures
        x & m <= m,
{
}

/// Masking never yields more than the mask.
pub proof fn lemma_mask_u16(x: u16, m: u16)
    by (bit_vector)
    ensures
        x & m <= m,
{
}

pub open spec fn spec_get_bit(data: u32, i: u8) -> bool {
    ((data >> i) & 1) == 1
}

/// Return the ith bit as a bool, where i is 0 indexed from the right
#[verifier::when_used_as_spec(spec_get_bit)]
pub fn get_bit(data: u32, i: u8) -> (r: bool)
    requires
        i < 32,
    ensures
        r == spec_get_bit(data, i),
{
    ((data >> i) & 1) == 1
}

pub open spec fn spec_get_bit_hw(data: u16, i: u8) -> bool {
    ((data >> i) & 1) == 1
}

/// Return the ith bit as a bool, where i is 0 indexed from the right
#[verifier::when_used_as_spec(spec_get_bit_hw)]
pub fn get_bit_hw(data: u16, i: u8) -> (r: bool)
    requires
        i < 16,
    ensures
        r == spec_get_bit_hw(data, i),
{
    ((data >> i) & 1) == 1
}

pub open spec fn spec_get_nibble(data: u32, i: u8) -> u32 {
    (data >> i) & 0xF
}

/// Return the nibble starting at i (going leftwards) where i is 0 indexed from the right
#[verifier::when_used_as_spec(spec_get_nibble)]
pub fn get_nibble(data: u32, i: u8) -> (r: u32)
    requires
        i < 32,
    ensures
        r == spec_get_nibble(data, i),
        r <= 15,
{
    proof {
        lemma_mask_u32(data >> i, 0xF);
    }
    (data >> i) & 0xF
}

pub open spec fn spec_get_byte(data: u32, i: u8) -> u32 {
    (data >> i) & 0xFF
}

/// Return the byte starting at i (going leftwards), where i is 0 indexed from the right
#[verifier::when_used_as_spec(spec_get_byte)]
pub fn get_byte(data: u32, i: u8) -> (r: u32)
    requires
        i < 32,
    ensures
        r == spec_get_byte(data, i),
        r <= 255,
{
    proof {
        lemma_mask_u32(data >> i, 0xFF);
    }
    (data >> i) & 0xFF
}

/// The little-endian halfword that two bytes make.
pub open spec fn spec_halfword_of(lo: u8, hi: u8) -> u16 {
    (lo as int + 0x100 * (hi as int)) as u16
}

#[verifier::when_used_as_spec(spec_halfword_of)]
pub fn halfword_of(lo: u8, hi: u8) -> (r: u16)
    ensures
        r == spec_halfword_of(lo, hi),
{
    let lo: u16 = lo as u16;
    let hi: u16 = hi as u16;
    lo + 0x100 * hi
}

/// The little-endian word that four bytes make.
pub open spec fn spec_word_of(b0: u8, b1: u8, b2: u8, b3: u8) -> u32 {
    (b0 as int + 0x100 * (b1 as int) + 0x1_0000 * (b2 as int) + 0x100_0000 * (b3 as int)) as u32
}

#[verifier::when_used_as_spec(spec_word_of)]
pub fn word_of(b0: u8, b1: u8, b2: u8, b3: u8) -> (r: u32)
    ensures
        r == spec_word_of(b0, b1, b2, b3),
{
    let b0: u32 = b0 as u32;
    let b1: u32 = b1 as u32;
    let b2: u32 = b2 as u32;
    let b3: u32 = b3 as u32;
    b0 + 0x100 * b1 + 0x1_0000 * b2 + 0x100_0000 * b3
}

/// The value of a halfword in signed 8.8 fixed point, in units of 1/256:
/// bits 15..8 are a two's complement integer part, bits 7..0 the fraction.
pub open spec fn fixed_hw(raw: u16) -> int {
    let whole = (raw / 256) as int;
    let frac = (raw % 256) as int;
    (if whole >= 128 { whole - 256 } else { whole }) * 256 + frac
}

/// Decode a signed 8.8 fixed point halfword into units of 1/256.
pub fn to_fixed_hw(raw: u16) -> (r: i32)
    ensures
        r == fixed_hw(raw),
        -32768 <= r <= 32767,
{
    let whole: i32 = (raw / 256) as i32;
    let frac: i32 = (raw % 256) as i32;
    (if whole >= 128 { whole - 256 } else { whole }) * 256 + frac
}

/// The value of a word in signed 19.8 fixed point, in units of 1/256:
/// bits 27..8 are a two's complement integer part (bit 27 is the sign),
/// bits 7..0 the fraction. Bits 31..28 are not part of the number.
pub open spec fn fixed_word(raw: u32) -> int {
    let whole = ((raw / 256) % 0x10_0000) as int;
    let frac = (raw % 256) as int;
    (if whole >= 0x8_0000 { whole - 0x10_0000 } else { whole }) * 256 + frac
}

/// Decode a signed 19.8 fixed point word into units of 1/256.
pub fn to_fixed_word(raw: u32) -> (r: i32)
    ensures
        r == fixed_word(raw),
        -0x800_0000 <= r <= 0x7FF_FFFF,
{
    let whole: i32 = ((raw / 256) % 0x10_0000) as i32;
    let frac: i32 = (raw % 256) as i32;
    (if whole >= 0x8_0000 { whole - 0x10_0000 } else { whole }) * 256 + frac
}

/// `value` rotated right by `amount` bit positions (taken modulo 32).
pub open spec fn spec_rotate_right(value: u32, amount: u32) -> u32 {
    if amount % 32 == 0 {
        value
    } else {
        (value >> (amount % 32)) | (value << ((32 - amount % 32) as u32))
    }
}

/// Rotate a word right; bits leaving at the bottom re-enter at the top.
#[verifier::when_used_as_spec(spec_rotate_right)]
pub fn rotate_right(value: u32, amount: u32) -> (r: u32)
    ensures
        r == spec_rotate_right(value, amount),
{
    let k: u32 = amount % 32;
    if k == 0 {
        value
    } else {
        (value >> k) | (value << (32 - k))
    }
}

/// The sum of a register value and a signed displacement, modulo 2^32.
pub open spec fn spec_offset_addr(base: u32, offset: int) -> u32 {
    ((base as int + offset) % 0x1_0000_0000) as u32
}

/// Add a signed displacement to an address, wrapping around the 32 bit space.
pub fn offset_addr(base: u32, offset: i64) -> (r: u32)
    ensures
        r == spec_offset_addr(base, offset as int),
{
    let sum: i128 = base as i128 + offset as i128;
    if sum >= 0 {
        (sum % 0x1_0000_0000) as u32
    } else {
        let back: i128 = (-sum) % 0x1_0000_0000;
        if back == 0 {
            0
        } else {
            (0x1_0000_0000 - back) as u32
        }
    }
}

} // verus!
