//! Ordinal encodings: branch-free maps from the bit pattern of an element to a
//! signed integer of the same width whose order is the order of the elements.
//!
//! Kernels compare signed integers only. An unsigned or a floating-point
//! element is therefore encoded once when it is loaded, and the two extremes are
//! decoded once when a kernel is done.
use vstd::prelude::*;

verus! {

/// The order key of a 16-bit float given by its bit pattern.
pub open spec fn f16_key(bits: u16) -> int {
    if bits < 0x8000 {
        bits as int
    } else {
        0x7FFF - bits as int
    }
}

/// The order key of a 32-bit float given by its bit pattern: the magnitude
/// bits for a clear sign bit, and minus one minus the magnitude bits for a
/// set sign bit. Positive NaNs lie above `+inf`, negative NaNs below `-inf`,
/// and `-0.0` lies directly below `+0.0`.
pub open spec fn f32_key(bits: u32) -> int {
    if bits < 0x8000_0000 {
        bits as int
    } else {
        0x7FFF_FFFF - bits as int
    }
}

/// The order key of a 64-bit float given by its bit pattern.
pub open spec fn f64_key(bits: u64) -> int {
    if bits < 0x8000_0000_0000_0000 {
        bits as int
    } else {
        0x7FFF_FFFF_FFFF_FFFF - bits as int
    }
}

/// Different bit patterns have different keys.
pub proof fn lemma_f16_key_injective(a: u16, b: u16)
    requires
        f16_key(a) == f16_key(b),
    ensures
        a == b,
{
}

/// Different bit patterns have different keys: an ordinal stands for one
/// float only, and decoding undoes encoding.
pub proof fn lemma_f32_key_injective(a: u32, b: u32)
    requires
        f32_key(a) == f32_key(b),
    ensures
        a == b,
{
}

/// Different bit patterns have different keys.
pub proof fn lemma_f64_key_injective(a: u64, b: u64)
    requires
        f64_key(a) == f64_key(b),
    ensures
        a == b,
{
}

/// Whether the bit pattern is a NaN.
pub open spec fn f16_is_nan(bits: u16) -> bool {
    bits & 0x7FFF > 0x7C00
}

/// Whether the bit pattern is a NaN: all exponent bits set and a mantissa
/// that is not zero.
pub open spec fn f32_is_nan(bits: u32) -> bool {
    bits & 0x7FFF_FFFF > 0x7F80_0000
}

/// Whether the bit pattern is a NaN.
pub open spec fn f64_is_nan(bits: u64) -> bool {
    bits & 0x7FFF_FFFF_FFFF_FFFF > 0x7FF0_0000_0000_0000
}

/// Encodes the bits of a 16-bit float.
pub fn f16_to_i16ord(bits: u16) -> (o: i16)
    ensures
        o as int == f16_key(bits),
{
    let v: i16 = #[verifier::truncate] (bits as i16);
    let o: i16 = ((v >> 15) & 0x7FFF) ^ v;
    assert(o as int == f16_key(bits)) by (bit_vector)
        requires
            v == bits as i16,
            o == ((v >> 15) & 0x7FFF) ^ v,
    ;
    o
}

/// Decodes an ordinal to the bits of the 16-bit float that it stands for.
pub fn i16ord_to_f16(o: i16) -> (bits: u16)
    ensures
        f16_key(bits) == o as int,
{
    let v: i16 = ((o >> 15) & 0x7FFF) ^ o;
    let bits: u16 = #[verifier::truncate] (v as u16);
    assert(f16_key(bits) == o as int) by (bit_vector)
        requires
            v == ((o >> 15) & 0x7FFF) ^ o,
            bits == v as u16,
    ;
    bits
}

/// Encodes the bits of a 32-bit float: on a set sign bit all other bits are
/// flipped, else nothing changes.
pub fn f32_to_i32ord(bits: u32) -> (o: i32)
    ensures
        o as int == f32_key(bits),
{
    let v: i32 = #[verifier::truncate] (bits as i32);
    let o: i32 = ((v >> 31) & 0x7FFF_FFFF) ^ v;
    assert(o as int == f32_key(bits)) by (bit_vector)
        requires
            v == bits as i32,
            o == ((v >> 31) & 0x7FFF_FFFF) ^ v,
    ;
    o
}

/// Decodes an ordinal to the bits of the 32-bit float that it stands for.
pub fn i32ord_to_f32(o: i32) -> (bits: u32)
    ensures
        f32_key(bits) == o as int,
{
    let v: i32 = ((o >> 31) & 0x7FFF_FFFF) ^ o;
    let bits: u32 = #[verifier::truncate] (v as u32);
    assert(f32_key(bits) == o as int) by (bit_vector)
        requires
            v == ((o >> 31) & 0x7FFF_FFFF) ^ o,
            bits == v as u32,
    ;
    bits
}

/// Encodes the bits of a 64-bit float.
pub fn f64_to_i64ord(bits: u64) -> (o: i64)
    ensures
        o as int == f64_key(bits),
{
    let v: i64 = #[verifier::truncate] (bits as i64);
    let o: i64 = ((v >> 63) & 0x7FFF_FFFF_FFFF_FFFF) ^ v;
    assert(o as int == f64_key(bits)) by (bit_vector)
        requires
            v == bits as i64,
            o == ((v >> 63) & 0x7FFF_FFFF_FFFF_FFFF) ^ v,
    ;
    o
}

/// Decodes an ordinal to the bits of the 64-bit float that it stands for.
pub fn i64ord_to_f64(o: i64) -> (bits: u64)
    ensures
        f64_key(bits) == o as int,
{
    let v: i64 = ((o >> 63) & 0x7FFF_FFFF_FFFF_FFFF) ^ o;
    let bits: u64 = #[verifier::truncate] (v as u64);
    assert(f64_key(bits) == o as int) by (bit_vector)
        requires
            v == ((o >> 63) & 0x7FFF_FFFF_FFFF_FFFF) ^ o,
            bits == v as u64,
    ;
    bits
}

/// Encodes an unsigned 16-bit integer: the top bit is flipped, which moves the
/// range down by 2^15 and keeps the order.
pub fn u16_to_i16ord(x: u16) -> (o: i16)
    ensures
        o as int == x as int - 0x8000,
{
    let o: i16 = #[verifier::truncate] ((x ^ 0x8000) as i16);
    assert(o as int == x as int - 0x8000) by (bit_vector)
        requires
            o == (x ^ 0x8000) as i16,
    ;
    o
}

/// Decodes an ordinal to the unsigned 16-bit integer that it stands for.
pub fn i16ord_to_u16(o: i16) -> (x: u16)
    ensures
        x as int == o as int + 0x8000,
{
    let x: u16 = #[verifier::truncate] (o as u16) ^ 0x8000;
    assert(x as int == o as int + 0x8000) by (bit_vector)
        requires
            x == (o as u16) ^ 0x8000,
    ;
    x
}

/// Encodes an unsigned 32-bit integer: the top bit is flipped, which moves the
/// range down by 2^31 and keeps the order.
pub fn u32_to_i32ord(x: u32) -> (o: i32)
    ensures
        o as int == x as int - 0x8000_0000,
{
    let o: i32 = #[verifier::truncate] ((x ^ 0x8000_0000) as i32);
    assert(o as int == x as int - 0x8000_0000) by (bit_vector)
        requires
            o == (x ^ 0x8000_0000) as i32,
    ;
    o
}

/// Decodes an ordinal to the unsigned 32-bit integer that it stands for.
pub fn i32ord_to_u32(o: i32) -> (x: u32)
    ensures
        x as int == o as int + 0x8000_0000,
{
    let x: u32 = #[verifier::truncate] (o as u32) ^ 0x8000_0000;
    assert(x as int == o as int + 0x8000_0000) by (bit_vector)
        requires
            x == (o as u32) ^ 0x8000_0000,
    ;
    x
}

/// Encodes an unsigned 64-bit integer: the top bit is flipped, which moves the
/// range down by 2^63 and keeps the order.
pub fn u64_to_i64ord(x: u64) -> (o: i64)
    ensures
        o as int == x as int - 0x8000_0000_0000_0000,
{
    let o: i64 = #[verifier::truncate] ((x ^ 0x8000_0000_0000_0000) as i64);
    assert(o as int == x as int - 0x8000_0000_0000_0000) by (bit_vector)
        requires
            o == (x ^ 0x8000_0000_0000_0000) as i64,
    ;
    o
}

/// Decodes an ordinal to the unsigned 64-bit integer that it stands for.
pub fn i64ord_to_u64(o: i64) -> (x: u64)
    ensures
        x as int == o as int + 0x8000_0000_0000_0000,
{
    let x: u64 = #[verifier::truncate] (o as u64) ^ 0x8000_0000_0000_0000;
    assert(x as int == o as int + 0x8000_0000_0000_0000) by (bit_vector)
        requires
            x == (o as u64) ^ 0x8000_0000_0000_0000,
    ;
    x
}

/// Encodes an unsigned byte in decreasing order: all bits but the top one are
/// flipped, so that 0 becomes 127 and 255 becomes -128.
pub fn u8_to_i8decrord(x: u8) -> (o: i8)
    ensures
        o as int == 127 - x as int,
{
    let o: i8 = #[verifier::truncate] ((x ^ 0x7F) as i8);
    assert(o as int == 127 - x as int) by (bit_vector)
        requires
            o == (x ^ 0x7F) as i8,
    ;
    o
}

/// Decodes a decreasing ordinal to the unsigned byte that it stands for.
pub fn i8decrord_to_u8(o: i8) -> (x: u8)
    ensures
        x as int == 127 - o as int,
{
    let x: u8 = #[verifier::truncate] (o as u8) ^ 0x7F;
    assert(x as int == 127 - o as int) by (bit_vector)
        requires
            x == (o as u8) ^ 0x7F,
    ;
    x
}

/// Whether the bits of a 16-bit float are a NaN.
pub fn f16_bits_are_nan(bits: u16) -> (r: bool)
    ensures
        r == f16_is_nan(bits),
{
    bits & 0x7FFF > 0x7C00
}

/// Whether the bits of a 32-bit float are a NaN.
pub fn f32_bits_are_nan(bits: u32) -> (r: bool)
    ensures
        r == f32_is_nan(bits),
{
    bits & 0x7FFF_FFFF > 0x7F80_0000
}

/// Whether the bits of a 64-bit float are a NaN.
pub fn f64_bits_are_nan(bits: u64) -> (r: bool)
    ensures
        r == f64_is_nan(bits),
{
    bits & 0x7FFF_FFFF_FFFF_FFFF > 0x7FF0_0000_0000_0000
}

} // verus!
