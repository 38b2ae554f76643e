//! Kernels for unsigned 64-bit integers.
//!
//! The kernels compare signed lanes only. An element is therefore loaded with
//! its top bit flipped, which moves the range down by 2^63 and keeps the order.
//! The 128-bit family of ARM has no 64-bit lanes to compare or to add: for
//! elements of this width it has no kernel.
use crate::lane::{
    lane_vals, lanes_add, lanes_blend, lanes_gt, lanes_iota, lanes_lt, lanes_splat,
    max_index_value, min_index_value, Lane,
};
use crate::ordinal::{i64ord_to_u64, u64_to_i64ord};
use crate::reduce::{bit_set, bits_to_flags, flags_to_bits};
use crate::simd::config::{get_lane_size, AVX2, AVX512, SSE};
use crate::simd::generic::{SIMDArgMinMax, SIMDOps};
use crate::simd::task::argminmax_generic;
use vstd::prelude::*;

verus! {

/// Reads the `L` integers of `data` that start at `at`, each as its ordinal.
fn load_as_i64ord<const L: usize>(data: &[u64], at: usize) -> (r: [i64; L])
    requires
        0 < L,
        at + L <= data@.len(),
    ensures
        forall|k: int| 0 <= k < L ==> r[k] as int == data@[at + k] as int - 0x8000_0000_0000_0000,
{
    let mut r: [i64; L] = [0;L];
    let mut k: usize = 0;
    while k < L
        invariant
            k <= L,
            at + L <= data.len(),
            forall|j: int|
                0 <= j < k ==> r[j] as int == data@[at + j] as int - 0x8000_0000_0000_0000,
        decreases L - k,
    {
        r[k] = u64_to_i64ord(data[at + k]);
        k += 1;
    }
    r
}

/// Four lanes. The family has no signed less-than for this width: it is the
/// greater-than with the operands swapped.
impl SIMDOps<u64> for AVX2 {
    type Vector = [i64; 4];

    type Mask = [bool; 4];

    open spec fn lane_size() -> int {
        4
    }

    open spec fn max_index() -> int {
        i64::MAX as int
    }

    open spec fn lane_min() -> int {
        i64::MIN as int
    }

    open spec fn lanes(v: [i64; 4]) -> Seq<int> {
        lane_vals(v)
    }

    open spec fn flags(m: [bool; 4]) -> Seq<bool> {
        m@
    }

    open spec fn key(x: u64) -> int {
        x as int - 0x8000_0000_0000_0000
    }

    open spec fn decreasing() -> bool {
        false
    }

    proof fn lemma_shape() {
    }

    proof fn lemma_lanes_len(v: [i64; 4]) {
    }

    proof fn lemma_key_order(a: u64, b: u64) {
    }

    fn lane_count() -> (l: usize) {
        get_lane_size::<AVX2>(64)
    }

    fn index_limit() -> (m: usize) {
        let limit: u64 = i64::MAX as u64;
        if limit > usize::MAX as u64 {
            usize::MAX
        } else {
            limit as usize
        }
    }

    fn initial_index() -> (v: [i64; 4]) {
        lanes_iota()
    }

    fn index_increment() -> (v: [i64; 4]) {
        lanes_splat(4)
    }

    fn load(data: &[u64], at: usize) -> (v: [i64; 4]) {
        load_as_i64ord(data, at)
    }

    fn add(a: [i64; 4], b: [i64; 4]) -> (v: [i64; 4]) {
        lanes_add(a, b)
    }

    fn mask_gt(a: [i64; 4], b: [i64; 4]) -> (m: [bool; 4]) {
        lanes_gt(a, b)
    }

    fn mask_lt(a: [i64; 4], b: [i64; 4]) -> (m: [bool; 4]) {
        lanes_gt(b, a)
    }

    fn blendv(a: [i64; 4], b: [i64; 4], mask: [bool; 4]) -> (v: [i64; 4]) {
        lanes_blend(a, b, mask)
    }

    fn horiz_min(index: [i64; 4], value: [i64; 4]) -> (r: (usize, u64)) {
        let (min_index, min_value) = min_index_value(&index, &value);
        (min_index.to_index(), i64ord_to_u64(min_value))
    }

    fn horiz_max(index: [i64; 4], value: [i64; 4]) -> (r: (usize, u64)) {
        let (max_index, max_value) = max_index_value(&index, &value);
        (max_index.to_index(), i64ord_to_u64(max_value))
    }

    fn get_min_max_index_value(
        index_low: [i64; 4],
        values_low: [i64; 4],
        index_high: [i64; 4],
        values_high: [i64; 4],
    ) -> (r: (usize, u64, usize, u64)) {
        let (min_index, min_value) = Self::horiz_min(index_low, values_low);
        let (max_index, max_value) = Self::horiz_max(index_high, values_high);
        (min_index, min_value, max_index, max_value)
    }
}

impl SIMDArgMinMax<u64> for AVX2 {
    fn argminmax(data: &[u64]) -> (r: (usize, usize)) {
        argminmax_generic::<u64, AVX2>(data)
    }
}

/// Two lanes. The family has no signed less-than for this width: it is the
/// greater-than with the operands swapped.
impl SIMDOps<u64> for SSE {
    type Vector = [i64; 2];

    type Mask = [bool; 2];

    open spec fn lane_size() -> int {
        2
    }

    open spec fn max_index() -> int {
        i64::MAX as int
    }

    open spec fn lane_min() -> int {
        i64::MIN as int
    }

    open spec fn lanes(v: [i64; 2]) -> Seq<int> {
        lane_vals(v)
    }

    open spec fn flags(m: [bool; 2]) -> Seq<bool> {
        m@
    }

    open spec fn key(x: u64) -> int {
        x as int - 0x8000_0000_0000_0000
    }

    open spec fn decreasing() -> bool {
        false
    }

    proof fn lemma_shape() {
    }

    proof fn lemma_lanes_len(v: [i64; 2]) {
    }

    proof fn lemma_key_order(a: u64, b: u64) {
    }

    fn lane_count() -> (l: usize) {
        get_lane_size::<SSE>(64)
    }

    fn index_limit() -> (m: usize) {
        let limit: u64 = i64::MAX as u64;
        if limit > usize::MAX as u64 {
            usize::MAX
        } else {
            limit as usize
        }
    }

    fn initial_index() -> (v: [i64; 2]) {
        lanes_iota()
    }

    fn index_increment() -> (v: [i64; 2]) {
        lanes_splat(2)
    }

    fn load(data: &[u64], at: usize) -> (v: [i64; 2]) {
        load_as_i64ord(data, at)
    }

    fn add(a: [i64; 2], b: [i64; 2]) -> (v: [i64; 2]) {
        lanes_add(a, b)
    }

    fn mask_gt(a: [i64; 2], b: [i64; 2]) -> (m: [bool; 2]) {
        lanes_gt(a, b)
    }

    fn mask_lt(a: [i64; 2], b: [i64; 2]) -> (m: [bool; 2]) {
        lanes_gt(b, a)
    }

    fn blendv(a: [i64; 2], b: [i64; 2], mask: [bool; 2]) -> (v: [i64; 2]) {
        lanes_blend(a, b, mask)
    }

    fn horiz_min(index: [i64; 2], value: [i64; 2]) -> (r: (usize, u64)) {
        let (min_index, min_value) = min_index_value(&index, &value);
        (min_index.to_index(), i64ord_to_u64(min_value))
    }

    fn horiz_max(index: [i64; 2], value: [i64; 2]) -> (r: (usize, u64)) {
        let (max_index, max_value) = max_index_value(&index, &value);
        (max_index.to_index(), i64ord_to_u64(max_value))
    }

    fn get_min_max_index_value(
        index_low: [i64; 2],
        values_low: [i64; 2],
        index_high: [i64; 2],
        values_high: [i64; 2],
    ) -> (r: (usize, u64, usize, u64)) {
        let (min_index, min_value) = Self::horiz_min(index_low, values_low);
        let (max_index, max_value) = Self::horiz_max(index_high, values_high);
        (min_index, min_value, max_index, max_value)
    }
}

impl SIMDArgMinMax<u64> for SSE {
    fn argminmax(data: &[u64]) -> (r: (usize, usize)) {
        argminmax_generic::<u64, SSE>(data)
    }
}

/// Eight lanes. A comparison gives a word with one bit for each lane.
impl SIMDOps<u64> for AVX512 {
    type Vector = [i64; 8];

    type Mask = u64;

    open spec fn lane_size() -> int {
        8
    }

    open spec fn max_index() -> int {
        i64::MAX as int
    }

    open spec fn lane_min() -> int {
        i64::MIN as int
    }

    open spec fn lanes(v: [i64; 8]) -> Seq<int> {
        lane_vals(v)
    }

    open spec fn flags(m: u64) -> Seq<bool> {
        Seq::new(8, |k: int| bit_set(m, k))
    }

    open spec fn key(x: u64) -> int {
        x as int - 0x8000_0000_0000_0000
    }

    open spec fn decreasing() -> bool {
        false
    }

    proof fn lemma_shape() {
    }

    proof fn lemma_lanes_len(v: [i64; 8]) {
    }

    proof fn lemma_key_order(a: u64, b: u64) {
    }

    fn lane_count() -> (l: usize) {
        get_lane_size::<AVX512>(64)
    }

    fn index_limit() -> (m: usize) {
        let limit: u64 = i64::MAX as u64;
        if limit > usize::MAX as u64 {
            usize::MAX
        } else {
            limit as usize
        }
    }

    fn initial_index() -> (v: [i64; 8]) {
        lanes_iota()
    }

    fn index_increment() -> (v: [i64; 8]) {
        lanes_splat(8)
    }

    fn load(data: &[u64], at: usize) -> (v: [i64; 8]) {
        load_as_i64ord(data, at)
    }

    fn add(a: [i64; 8], b: [i64; 8]) -> (v: [i64; 8]) {
        lanes_add(a, b)
    }

    fn mask_gt(a: [i64; 8], b: [i64; 8]) -> (m: u64) {
        flags_to_bits(lanes_gt(a, b))
    }

    fn mask_lt(a: [i64; 8], b: [i64; 8]) -> (m: u64) {
        flags_to_bits(lanes_lt(a, b))
    }

    fn blendv(a: [i64; 8], b: [i64; 8], mask: u64) -> (v: [i64; 8]) {
        lanes_blend(a, b, bits_to_flags(mask))
    }

    fn horiz_min(index: [i64; 8], value: [i64; 8]) -> (r: (usize, u64)) {
        let (min_index, min_value) = min_index_value(&index, &value);
        (min_index.to_index(), i64ord_to_u64(min_value))
    }

    fn horiz_max(index: [i64; 8], value: [i64; 8]) -> (r: (usize, u64)) {
        let (max_index, max_value) = max_index_value(&index, &value);
        (max_index.to_index(), i64ord_to_u64(max_value))
    }

    fn get_min_max_index_value(
        index_low: [i64; 8],
        values_low: [i64; 8],
        index_high: [i64; 8],
        values_high: [i64; 8],
    ) -> (r: (usize, u64, usize, u64)) {
        let (min_index, min_value) = Self::horiz_min(index_low, values_low);
        let (max_index, max_value) = Self::horiz_max(index_high, values_high);
        (min_index, min_value, max_index, max_value)
    }
}

impl SIMDArgMinMax<u64> for AVX512 {
    fn argminmax(data: &[u64]) -> (r: (usize, usize)) {
        argminmax_generic::<u64, AVX512>(data)
    }
}

} // verus!
