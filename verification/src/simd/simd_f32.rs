//! Kernels for 32-bit floats.
//!
//! The floats come as bit patterns and are compared as ordinals, so that one
//! integer comparison orders them all. A NaN is then an ordinary value at one
//! end of the order: with a clear sign bit it is larger than everything else,
//! and a kernel returns its position as the argmax.
use crate::element::F32Bits;
use crate::lane::{
    lane_vals, lanes_add, lanes_blend, lanes_gt, lanes_iota, lanes_lt, lanes_splat,
    max_index_value, min_index_value, Lane,
};
use crate::ordinal::{f32_key, f32_to_i32ord, i32ord_to_f32};
use crate::reduce::{bit_set, bits_to_flags, flags_to_bits};
use crate::simd::config::{get_lane_size, AVX2, AVX512, NEON, SSE};
use crate::simd::generic::{SIMDArgMinMax, SIMDOps};
use crate::simd::task::argminmax_generic;
use vstd::prelude::*;

verus! {

/// Reads the `L` floats of `data` that start at `at`, each as its ordinal.
fn load_as_i32ord<const L: usize>(data: &[F32Bits], at: usize) -> (r: [i32; L])
    requires
        0 < L,
        at + L <= data@.len(),
    ensures
        forall|k: int| 0 <= k < L ==> r[k] as int == f32_key(data@[at + k].bits),
{
    let mut r: [i32; L] = [0;L];
    let mut k: usize = 0;
    while k < L
        invariant
            k <= L,
            at + L <= data.len(),
            forall|j: int|
                0 <= j < k ==> r[j] as int == f32_key(data@[at + j].bits),
        decreases L - k,
    {
        r[k] = f32_to_i32ord(data[at + k].bits);
        k += 1;
    }
    r
}

/// Eight lanes. The family has no signed less-than for this width: it is the
/// greater-than with the operands swapped.
impl SIMDOps<F32Bits> for AVX2 {
    type Vector = [i32; 8];

    type Mask = [bool; 8];

    open spec fn lane_size() -> int {
        8
    }

    open spec fn max_index() -> int {
        i32::MAX as int
    }

    open spec fn lane_min() -> int {
        i32::MIN as int
    }

    open spec fn lanes(v: [i32; 8]) -> Seq<int> {
        lane_vals(v)
    }

    open spec fn flags(m: [bool; 8]) -> Seq<bool> {
        m@
    }

    open spec fn key(x: F32Bits) -> int {
        f32_key(x.bits)
    }

    open spec fn decreasing() -> bool {
        false
    }

    proof fn lemma_shape() {
    }

    proof fn lemma_lanes_len(v: [i32; 8]) {
    }

    proof fn lemma_key_order(a: F32Bits, b: F32Bits) {
    }

    fn lane_count() -> (l: usize) {
        get_lane_size::<AVX2>(32)
    }

    fn index_limit() -> (m: usize) {
        i32::MAX as usize
    }

    fn initial_index() -> (v: [i32; 8]) {
        lanes_iota()
    }

    fn index_increment() -> (v: [i32; 8]) {
        lanes_splat(8)
    }

    fn load(data: &[F32Bits], at: usize) -> (v: [i32; 8]) {
        load_as_i32ord(data, at)
    }

    fn add(a: [i32; 8], b: [i32; 8]) -> (v: [i32; 8]) {
        lanes_add(a, b)
    }

    fn mask_gt(a: [i32; 8], b: [i32; 8]) -> (m: [bool; 8]) {
        lanes_gt(a, b)
    }

    fn mask_lt(a: [i32; 8], b: [i32; 8]) -> (m: [bool; 8]) {
        lanes_gt(b, a)
    }

    fn blendv(a: [i32; 8], b: [i32; 8], mask: [bool; 8]) -> (v: [i32; 8]) {
        lanes_blend(a, b, mask)
    }

    fn horiz_min(index: [i32; 8], value: [i32; 8]) -> (r: (usize, F32Bits)) {
        let (min_index, min_value) = min_index_value(&index, &value);
        (min_index.to_index(), F32Bits::new(i32ord_to_f32(min_value)))
    }

    fn horiz_max(index: [i32; 8], value: [i32; 8]) -> (r: (usize, F32Bits)) {
        let (max_index, max_value) = max_index_value(&index, &value);
        (max_index.to_index(), F32Bits::new(i32ord_to_f32(max_value)))
    }

    fn get_min_max_index_value(
        index_low: [i32; 8],
        values_low: [i32; 8],
        index_high: [i32; 8],
        values_high: [i32; 8],
    ) -> (r: (usize, F32Bits, usize, F32Bits)) {
        let (min_index, min_value) = Self::horiz_min(index_low, values_low);
        let (max_index, max_value) = Self::horiz_max(index_high, values_high);
        (min_index, min_value, max_index, max_value)
    }
}

impl SIMDArgMinMax<F32Bits> for AVX2 {
    fn argminmax(data: &[F32Bits]) -> (r: (usize, usize)) {
        argminmax_generic::<F32Bits, AVX2>(data)
    }
}

/// Four lanes.
impl SIMDOps<F32Bits> for SSE {
    type Vector = [i32; 4];

    type Mask = [bool; 4];

    open spec fn lane_size() -> int {
        4
    }

    open spec fn max_index() -> int {
        i32::MAX as int
    }

    open spec fn lane_min() -> int {
        i32::MIN as int
    }

    open spec fn lanes(v: [i32; 4]) -> Seq<int> {
        lane_vals(v)
    }

    open spec fn flags(m: [bool; 4]) -> Seq<bool> {
        m@
    }

    open spec fn key(x: F32Bits) -> int {
        f32_key(x.bits)
    }

    open spec fn decreasing() -> bool {
        false
    }

    proof fn lemma_shape() {
    }

    proof fn lemma_lanes_len(v: [i32; 4]) {
    }

    proof fn lemma_key_order(a: F32Bits, b: F32Bits) {
    }

    fn lane_count() -> (l: usize) {
        get_lane_size::<SSE>(32)
    }

    fn index_limit() -> (m: usize) {
        i32::MAX as usize
    }

    fn initial_index() -> (v: [i32; 4]) {
        lanes_iota()
    }

    fn index_increment() -> (v: [i32; 4]) {
        lanes_splat(4)
    }

    fn load(data: &[F32Bits], at: usize) -> (v: [i32; 4]) {
        load_as_i32ord(data, at)
    }

    fn add(a: [i32; 4], b: [i32; 4]) -> (v: [i32; 4]) {
        lanes_add(a, b)
    }

    fn mask_gt(a: [i32; 4], b: [i32; 4]) -> (m: [bool; 4]) {
        lanes_gt(a, b)
    }

    fn mask_lt(a: [i32; 4], b: [i32; 4]) -> (m: [bool; 4]) {
        lanes_lt(a, b)
    }

    fn blendv(a: [i32; 4], b: [i32; 4], mask: [bool; 4]) -> (v: [i32; 4]) {
        lanes_blend(a, b, mask)
    }

    fn horiz_min(index: [i32; 4], value: [i32; 4]) -> (r: (usize, F32Bits)) {
        let (min_index, min_value) = min_index_value(&index, &value);
        (min_index.to_index(), F32Bits::new(i32ord_to_f32(min_value)))
    }

    fn horiz_max(index: [i32; 4], value: [i32; 4]) -> (r: (usize, F32Bits)) {
        let (max_index, max_value) = max_index_value(&index, &value);
        (max_index.to_index(), F32Bits::new(i32ord_to_f32(max_value)))
    }

    fn get_min_max_index_value(
        index_low: [i32; 4],
        values_low: [i32; 4],
        index_high: [i32; 4],
        values_high: [i32; 4],
    ) -> (r: (usize, F32Bits, usize, F32Bits)) {
        let (min_index, min_value) = Self::horiz_min(index_low, values_low);
        let (max_index, max_value) = Self::horiz_max(index_high, values_high);
        (min_index, min_value, max_index, max_value)
    }
}

impl SIMDArgMinMax<F32Bits> for SSE {
    fn argminmax(data: &[F32Bits]) -> (r: (usize, usize)) {
        argminmax_generic::<F32Bits, SSE>(data)
    }
}

/// Sixteen lanes. A comparison gives a word with one bit for each lane.
impl SIMDOps<F32Bits> for AVX512 {
    type Vector = [i32; 16];

    type Mask = u64;

    open spec fn lane_size() -> int {
        16
    }

    open spec fn max_index() -> int {
        i32::MAX as int
    }

    open spec fn lane_min() -> int {
        i32::MIN as int
    }

    open spec fn lanes(v: [i32; 16]) -> Seq<int> {
        lane_vals(v)
    }

    open spec fn flags(m: u64) -> Seq<bool> {
        Seq::new(16, |k: int| bit_set(m, k))
    }

    open spec fn key(x: F32Bits) -> int {
        f32_key(x.bits)
    }

    open spec fn decreasing() -> bool {
        false
    }

    proof fn lemma_shape() {
    }

    proof fn lemma_lanes_len(v: [i32; 16]) {
    }

    proof fn lemma_key_order(a: F32Bits, b: F32Bits) {
    }

    fn lane_count() -> (l: usize) {
        get_lane_size::<AVX512>(32)
    }

    fn index_limit() -> (m: usize) {
        i32::MAX as usize
    }

    fn initial_index() -> (v: [i32; 16]) {
        lanes_iota()
    }

    fn index_increment() -> (v: [i32; 16]) {
        lanes_splat(16)
    }

    fn load(data: &[F32Bits], at: usize) -> (v: [i32; 16]) {
        load_as_i32ord(data, at)
    }

    fn add(a: [i32; 16], b: [i32; 16]) -> (v: [i32; 16]) {
        lanes_add(a, b)
    }

    fn mask_gt(a: [i32; 16], b: [i32; 16]) -> (m: u64) {
        flags_to_bits(lanes_gt(a, b))
    }

    fn mask_lt(a: [i32; 16], b: [i32; 16]) -> (m: u64) {
        flags_to_bits(lanes_lt(a, b))
    }

    fn blendv(a: [i32; 16], b: [i32; 16], mask: u64) -> (v: [i32; 16]) {
        lanes_blend(a, b, bits_to_flags(mask))
    }

    fn horiz_min(index: [i32; 16], value: [i32; 16]) -> (r: (usize, F32Bits)) {
        let (min_index, min_value) = min_index_value(&index, &value);
        (min_index.to_index(), F32Bits::new(i32ord_to_f32(min_value)))
    }

    fn horiz_max(index: [i32; 16], value: [i32; 16]) -> (r: (usize, F32Bits)) {
        let (max_index, max_value) = max_index_value(&index, &value);
        (max_index.to_index(), F32Bits::new(i32ord_to_f32(max_value)))
    }

    fn get_min_max_index_value(
        index_low: [i32; 16],
        values_low: [i32; 16],
        index_high: [i32; 16],
        values_high: [i32; 16],
    ) -> (r: (usize, F32Bits, usize, F32Bits)) {
        let (min_index, min_value) = Self::horiz_min(index_low, values_low);
        let (max_index, max_value) = Self::horiz_max(index_high, values_high);
        (min_index, min_value, max_index, max_value)
    }
}

impl SIMDArgMinMax<F32Bits> for AVX512 {
    fn argminmax(data: &[F32Bits]) -> (r: (usize, usize)) {
        argminmax_generic::<F32Bits, AVX512>(data)
    }
}

/// Four lanes.
impl SIMDOps<F32Bits> for NEON {
    type Vector = [i32; 4];

    type Mask = [bool; 4];

    open spec fn lane_size() -> int {
        4
    }

    open spec fn max_index() -> int {
        i32::MAX as int
    }

    open spec fn lane_min() -> int {
        i32::MIN as int
    }

    open spec fn lanes(v: [i32; 4]) -> Seq<int> {
        lane_vals(v)
    }

    open spec fn flags(m: [bool; 4]) -> Seq<bool> {
        m@
    }

    open spec fn key(x: F32Bits) -> int {
        f32_key(x.bits)
    }

    open spec fn decreasing() -> bool {
        false
    }

    proof fn lemma_shape() {
    }

    proof fn lemma_lanes_len(v: [i32; 4]) {
    }

    proof fn lemma_key_order(a: F32Bits, b: F32Bits) {
    }

    fn lane_count() -> (l: usize) {
        get_lane_size::<NEON>(32)
    }

    fn index_limit() -> (m: usize) {
        i32::MAX as usize
    }

    fn initial_index() -> (v: [i32; 4]) {
        lanes_iota()
    }

    fn index_increment() -> (v: [i32; 4]) {
        lanes_splat(4)
    }

    fn load(data: &[F32Bits], at: usize) -> (v: [i32; 4]) {
        load_as_i32ord(data, at)
    }

    fn add(a: [i32; 4], b: [i32; 4]) -> (v: [i32; 4]) {
        lanes_add(a, b)
    }

    fn mask_gt(a: [i32; 4], b: [i32; 4]) -> (m: [bool; 4]) {
        lanes_gt(a, b)
    }

    fn mask_lt(a: [i32; 4], b: [i32; 4]) -> (m: [bool; 4]) {
        lanes_lt(a, b)
    }

    fn blendv(a: [i32; 4], b: [i32; 4], mask: [bool; 4]) -> (v: [i32; 4]) {
        lanes_blend(a, b, mask)
    }

    fn horiz_min(index: [i32; 4], value: [i32; 4]) -> (r: (usize, F32Bits)) {
        let (min_index, min_value) = min_index_value(&index, &value);
        (min_index.to_index(), F32Bits::new(i32ord_to_f32(min_value)))
    }

    fn horiz_max(index: [i32; 4], value: [i32; 4]) -> (r: (usize, F32Bits)) {
        let (max_index, max_value) = max_index_value(&index, &value);
        (max_index.to_index(), F32Bits::new(i32ord_to_f32(max_value)))
    }

    fn get_min_max_index_value(
        index_low: [i32; 4],
        values_low: [i32; 4],
        index_high: [i32; 4],
        values_high: [i32; 4],
    ) -> (r: (usize, F32Bits, usize, F32Bits)) {
        let (min_index, min_value) = Self::horiz_min(index_low, values_low);
        let (max_index, max_value) = Self::horiz_max(index_high, values_high);
        (min_index, min_value, max_index, max_value)
    }
}

impl SIMDArgMinMax<F32Bits> for NEON {
    fn argminmax(data: &[F32Bits]) -> (r: (usize, usize)) {
        argminmax_generic::<F32Bits, NEON>(data)
    }
}

} // verus!
