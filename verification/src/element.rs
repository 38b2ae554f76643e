//! The element types that the kernels accept, each with its order key.
use crate::ordinal::{
    f16_bits_are_nan, f16_is_nan, f16_key, f16_to_i16ord, f32_bits_are_nan, f32_is_nan, f32_key,
    f32_to_i32ord, f64_bits_are_nan, f64_is_nan, f64_key, f64_to_i64ord,
};
use vstd::prelude::*;

verus! {

/// A type whose values are totally ordered by an integer key.
///
/// For the integer types the key is the value. For the floating-point types,
/// which are held as bit patterns, it is the ordinal of the pattern.
pub trait Element: Copy {
    /// The key by which values of this type are ordered.
    spec fn ord(self) -> int;

    /// Different values have different keys.
    proof fn lemma_ord_injective(a: Self, b: Self)
        requires
            a.ord() == b.ord(),
        ensures
            a == b,
    ;

    /// Whether `self` comes strictly before `other`.
    fn less(self, other: Self) -> (r: bool)
        ensures
            r == (self.ord() < other.ord()),
    ;
}

/// A floating-point type, held as bit patterns: an element that can be a NaN.
///
/// The keys of the values that are not NaN fill the range from the key of
/// negative infinity to the key of positive infinity. The key of a NaN lies
/// outside that range, above it with a clear sign bit and below it with a set
/// one.
pub trait FloatElement: Element {
    /// Whether the value is a NaN.
    spec fn nan(self) -> bool;

    /// The key of negative infinity.
    spec fn lowest_number() -> int;

    /// The key of positive infinity.
    spec fn highest_number() -> int;

    /// The NaNs are the values whose key lies outside the range of the
    /// numbers.
    proof fn lemma_nan_keys(x: Self)
        ensures
            x.nan() <==> (x.ord() < Self::lowest_number() || x.ord() > Self::highest_number()),
    ;

    /// Whether the value is a NaN.
    fn is_nan(self) -> (r: bool)
        ensures
            r == self.nan(),
    ;
}

/// For each position, whether the value there is a number: not a NaN.
pub open spec fn numbers<T: FloatElement>(s: Seq<T>) -> Seq<bool> {
    Seq::new(s.len(), |i: int| !s[i].nan())
}

/// The keys of a sequence of elements, position by position.
pub open spec fn ords<T: Element>(s: Seq<T>) -> Seq<int> {
    Seq::new(s.len(), |i: int| s[i].ord())
}

/// The keys of a window of a sequence are the window of its keys.
pub proof fn lemma_ords_of_window<T: Element>(s: Seq<T>, from: int, to: int)
    requires
        0 <= from <= to <= s.len(),
    ensures
        ords(s.subrange(from, to)) == ords(s).subrange(from, to),
{
    assert(ords(s.subrange(from, to)) =~= ords(s).subrange(from, to));
}

impl Element for i8 {
    open spec fn ord(self) -> int {
        self as int
    }

    proof fn lemma_ord_injective(a: Self, b: Self) {
    }

    fn less(self, other: Self) -> (r: bool) {
        self < other
    }
}

impl Element for i16 {
    open spec fn ord(self) -> int {
        self as int
    }

    proof fn lemma_ord_injective(a: Self, b: Self) {
    }

    fn less(self, other: Self) -> (r: bool) {
        self < other
    }
}

impl Element for i32 {
    open spec fn ord(self) -> int {
        self as int
    }

    proof fn lemma_ord_injective(a: Self, b: Self) {
    }

    fn less(self, other: Self) -> (r: bool) {
        self < other
    }
}

impl Element for i64 {
    open spec fn ord(self) -> int {
        self as int
    }

    proof fn lemma_ord_injective(a: Self, b: Self) {
    }

    fn less(self, other: Self) -> (r: bool) {
        self < other
    }
}

impl Element for u8 {
    open spec fn ord(self) -> int {
        self as int
    }

    proof fn lemma_ord_injective(a: Self, b: Self) {
    }

    fn less(self, other: Self) -> (r: bool) {
        self < other
    }
}

impl Element for u16 {
    open spec fn ord(self) -> int {
        self as int
    }

    proof fn lemma_ord_injective(a: Self, b: Self) {
    }

    fn less(self, other: Self) -> (r: bool) {
        self < other
    }
}

impl Element for u32 {
    open spec fn ord(self) -> int {
        self as int
    }

    proof fn lemma_ord_injective(a: Self, b: Self) {
    }

    fn less(self, other: Self) -> (r: bool) {
        self < other
    }
}

impl Element for u64 {
    open spec fn ord(self) -> int {
        self as int
    }

    proof fn lemma_ord_injective(a: Self, b: Self) {
    }

    fn less(self, other: Self) -> (r: bool) {
        self < other
    }
}

/// A 16-bit float, held as its bit pattern.
///
/// The order is that of the ordinals: it agrees with the order of the floats
/// on all values that are not NaN, but for `-0.0`, which comes before `+0.0`.
/// A NaN with a clear sign bit is larger than every other value and a NaN with
/// a set sign bit smaller.
#[derive(Clone, Copy, Debug, PartialEq, Eq, Structural)]
pub struct F16Bits {
    pub bits: u16,
}

impl F16Bits {
    /// Wraps a bit pattern.
    pub fn new(bits: u16) -> (r: Self)
        ensures
            r.bits == bits,
    {
        F16Bits { bits }
    }
}

impl FloatElement for F16Bits {
    open spec fn nan(self) -> bool {
        f16_is_nan(self.bits)
    }

    open spec fn lowest_number() -> int {
        -0x7C01
    }

    open spec fn highest_number() -> int {
        0x7C00
    }

    proof fn lemma_nan_keys(x: Self) {
        let bits = x.bits;
        assert(bits & 0x7FFF == if bits < 0x8000 {
            bits
        } else {
            (bits - 0x8000) as u16
        }) by (bit_vector);
    }

    fn is_nan(self) -> (r: bool) {
        f16_bits_are_nan(self.bits)
    }
}

impl Element for F16Bits {
    open spec fn ord(self) -> int {
        f16_key(self.bits)
    }

    proof fn lemma_ord_injective(a: Self, b: Self) {
        crate::ordinal::lemma_f16_key_injective(a.bits, b.bits);
    }

    fn less(self, other: Self) -> (r: bool) {
        f16_to_i16ord(self.bits) < f16_to_i16ord(other.bits)
    }
}

/// A 32-bit float, held as its bit pattern.
///
/// The order is that of the ordinals: it agrees with the order of the floats
/// on all values that are not NaN, but for `-0.0`, which comes before `+0.0`.
/// A NaN with a clear sign bit is larger than every other value and a NaN with
/// a set sign bit smaller.
#[derive(Clone, Copy, Debug, PartialEq, Eq, Structural)]
pub struct F32Bits {
    pub bits: u32,
}

impl F32Bits {
    /// Wraps a bit pattern.
    pub fn new(bits: u32) -> (r: Self)
        ensures
            r.bits == bits,
    {
        F32Bits { bits }
    }
}

impl FloatElement for F32Bits {
    open spec fn nan(self) -> bool {
        f32_is_nan(self.bits)
    }

    open spec fn lowest_number() -> int {
        -0x7F80_0001
    }

    open spec fn highest_number() -> int {
        0x7F80_0000
    }

    proof fn lemma_nan_keys(x: Self) {
        let bits = x.bits;
        assert(bits & 0x7FFF_FFFF == if bits < 0x8000_0000 {
            bits
        } else {
            (bits - 0x8000_0000) as u32
        }) by (bit_vector);
    }

    fn is_nan(self) -> (r: bool) {
        f32_bits_are_nan(self.bits)
    }
}

impl Element for F32Bits {
    open spec fn ord(self) -> int {
        f32_key(self.bits)
    }

    proof fn lemma_ord_injective(a: Self, b: Self) {
        crate::ordinal::lemma_f32_key_injective(a.bits, b.bits);
    }

    fn less(self, other: Self) -> (r: bool) {
        f32_to_i32ord(self.bits) < f32_to_i32ord(other.bits)
    }
}

/// A 64-bit float, held as its bit pattern.
///
/// The order is that of the ordinals: it agrees with the order of the floats
/// on all values that are not NaN, but for `-0.0`, which comes before `+0.0`.
/// A NaN with a clear sign bit is larger than every other value and a NaN with
/// a set sign bit smaller.
#[derive(Clone, Copy, Debug, PartialEq, Eq, Structural)]
pub struct F64Bits {
    pub bits: u64,
}

impl F64Bits {
    /// Wraps a bit pattern.
    pub fn new(bits: u64) -> (r: Self)
        ensures
            r.bits == bits,
    {
        F64Bits { bits }
    }
}

impl FloatElement for F64Bits {
    open spec fn nan(self) -> bool {
        f64_is_nan(self.bits)
    }

    open spec fn lowest_number() -> int {
        -0x7FF0_0000_0000_0001
    }

    open spec fn highest_number() -> int {
        0x7FF0_0000_0000_0000
    }

    proof fn lemma_nan_keys(x: Self) {
        let bits = x.bits;
        assert(bits & 0x7FFF_FFFF_FFFF_FFFF == if bits < 0x8000_0000_0000_0000 {
            bits
        } else {
            (bits - 0x8000_0000_0000_0000) as u64
        }) by (bit_vector);
    }

    fn is_nan(self) -> (r: bool) {
        f64_bits_are_nan(self.bits)
    }
}

impl Element for F64Bits {
    open spec fn ord(self) -> int {
        f64_key(self.bits)
    }

    proof fn lemma_ord_injective(a: Self, b: Self) {
        crate::ordinal::lemma_f64_key_injective(a.bits, b.bits);
    }

    fn less(self, other: Self) -> (r: bool) {
        f64_to_i64ord(self.bits) < f64_to_i64ord(other.bits)
    }
}

} // verus!
