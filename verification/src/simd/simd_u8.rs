//! Kernels for unsigned bytes.
//!
//! The kernels compare signed bytes only. An element is loaded with all bits
//! but the top one flipped, which is one operation and gives ordinals that
//! decrease: the smallest byte has the largest ordinal. The kernels therefore
//! swap the two extremes when they are done.
//!
//! An index lane is one byte wide, so a segment ends after at most 127
//! elements and the registers are reduced often. The reductions are therefore
//! done inside the registers.
use crate::lane::{
    lane_vals, lanes_add, lanes_blend, lanes_gt, lanes_iota, lanes_lt, lanes_splat, Lane,
};
use crate::ordinal::{i8decrord_to_u8, u8_to_i8decrord};
use crate::reduce::{bit_set, bits_to_flags, flags_to_bits, horiz_128, horiz_256, horiz_512};
use crate::simd::config::{get_lane_size, AVX2, AVX512, NEON, SSE};
use crate::simd::generic::{SIMDArgMinMax, SIMDOps};
use crate::simd::task::argminmax_generic;
use vstd::prelude::*;

verus! {

/// Reads the `L` bytes of `data` that start at `at`, each as its decreasing
/// ordinal.
fn load_as_i8decrord<const L: usize>(data: &[u8], at: usize) -> (r: [i8; L])
    requires
        0 < L,
        at + L <= data@.len(),
    ensures
        forall|k: int| 0 <= k < L ==> r[k] as int == 127 - data@[at + k] as int,
{
    let mut r: [i8; L] = [0;L];
    let mut k: usize = 0;
    while k < L
        invariant
            k <= L,
            at + L <= data.len(),
            forall|j: int|
                0 <= j < k ==> r[j] as int == 127 - data@[at + j] as int,
        decreases L - k,
    {
        r[k] = u8_to_i8decrord(data[at + k]);
        k += 1;
    }
    r
}

/// Thirty-two lanes. The family has no signed less-than for this width: it is
/// the greater-than with the operands swapped.
impl SIMDOps<u8> for AVX2 {
    type Vector = [i8; 32];

    type Mask = [bool; 32];

    open spec fn lane_size() -> int {
        32
    }

    open spec fn max_index() -> int {
        i8::MAX as int
    }

    open spec fn lane_min() -> int {
        i8::MIN as int
    }

    open spec fn lanes(v: [i8; 32]) -> Seq<int> {
        lane_vals(v)
    }

    open spec fn flags(m: [bool; 32]) -> Seq<bool> {
        m@
    }

    open spec fn key(x: u8) -> int {
        127 - x as int
    }

    open spec fn decreasing() -> bool {
        true
    }

    proof fn lemma_shape() {
    }

    proof fn lemma_lanes_len(v: [i8; 32]) {
    }

    proof fn lemma_key_order(a: u8, b: u8) {
    }

    fn lane_count() -> (l: usize) {
        get_lane_size::<AVX2>(8)
    }

    fn index_limit() -> (m: usize) {
        i8::MAX as usize
    }

    fn initial_index() -> (v: [i8; 32]) {
        lanes_iota()
    }

    fn index_increment() -> (v: [i8; 32]) {
        lanes_splat(32)
    }

    fn load(data: &[u8], at: usize) -> (v: [i8; 32]) {
        load_as_i8decrord(data, at)
    }

    fn add(a: [i8; 32], b: [i8; 32]) -> (v: [i8; 32]) {
        lanes_add(a, b)
    }

    fn mask_gt(a: [i8; 32], b: [i8; 32]) -> (m: [bool; 32]) {
        lanes_gt(a, b)
    }

    fn mask_lt(a: [i8; 32], b: [i8; 32]) -> (m: [bool; 32]) {
        lanes_gt(b, a)
    }

    fn blendv(a: [i8; 32], b: [i8; 32], mask: [bool; 32]) -> (v: [i8; 32]) {
        lanes_blend(a, b, mask)
    }

    fn horiz_min(index: [i8; 32], value: [i8; 32]) -> (r: (usize, u8)) {
        let (min_index, min_value) = horiz_256(index, value, false);
        (min_index.to_index(), i8decrord_to_u8(min_value))
    }

    fn horiz_max(index: [i8; 32], value: [i8; 32]) -> (r: (usize, u8)) {
        let (max_index, max_value) = horiz_256(index, value, true);
        (max_index.to_index(), i8decrord_to_u8(max_value))
    }

    fn get_min_max_index_value(
        index_low: [i8; 32],
        values_low: [i8; 32],
        index_high: [i8; 32],
        values_high: [i8; 32],
    ) -> (r: (usize, u8, usize, u8)) {
        let (min_index, min_value) = Self::horiz_min(index_low, values_low);
        let (max_index, max_value) = Self::horiz_max(index_high, values_high);
        // The ordinals decrease: the largest ordinal belongs to the smallest
        // element and the other way round.
        (max_index, max_value, min_index, min_value)
    }
}

impl SIMDArgMinMax<u8> for AVX2 {
    fn argminmax(data: &[u8]) -> (r: (usize, usize)) {
        argminmax_generic::<u8, AVX2>(data)
    }
}

/// Sixteen lanes.
impl SIMDOps<u8> for SSE {
    type Vector = [i8; 16];

    type Mask = [bool; 16];

    open spec fn lane_size() -> int {
        16
    }

    open spec fn max_index() -> int {
        i8::MAX as int
    }

    open spec fn lane_min() -> int {
        i8::MIN as int
    }

    open spec fn lanes(v: [i8; 16]) -> Seq<int> {
        lane_vals(v)
    }

    open spec fn flags(m: [bool; 16]) -> Seq<bool> {
        m@
    }

    open spec fn key(x: u8) -> int {
        127 - x as int
    }

    open spec fn decreasing() -> bool {
        true
    }

    proof fn lemma_shape() {
    }

    proof fn lemma_lanes_len(v: [i8; 16]) {
    }

    proof fn lemma_key_order(a: u8, b: u8) {
    }

    fn lane_count() -> (l: usize) {
        get_lane_size::<SSE>(8)
    }

    fn index_limit() -> (m: usize) {
        i8::MAX as usize
    }

    fn initial_index() -> (v: [i8; 16]) {
        lanes_iota()
    }

    fn index_increment() -> (v: [i8; 16]) {
        lanes_splat(16)
    }

    fn load(data: &[u8], at: usize) -> (v: [i8; 16]) {
        load_as_i8decrord(data, at)
    }

    fn add(a: [i8; 16], b: [i8; 16]) -> (v: [i8; 16]) {
        lanes_add(a, b)
    }

    fn mask_gt(a: [i8; 16], b: [i8; 16]) -> (m: [bool; 16]) {
        lanes_gt(a, b)
    }

    fn mask_lt(a: [i8; 16], b: [i8; 16]) -> (m: [bool; 16]) {
        lanes_lt(a, b)
    }

    fn blendv(a: [i8; 16], b: [i8; 16], mask: [bool; 16]) -> (v: [i8; 16]) {
        lanes_blend(a, b, mask)
    }

    fn horiz_min(index: [i8; 16], value: [i8; 16]) -> (r: (usize, u8)) {
        let (min_index, min_value) = horiz_128(index, value, false);
        (min_index.to_index(), i8decrord_to_u8(min_value))
    }

    fn horiz_max(index: [i8; 16], value: [i8; 16]) -> (r: (usize, u8)) {
        let (max_index, max_value) = horiz_128(index, value, true);
        (max_index.to_index(), i8decrord_to_u8(max_value))
    }

    fn get_min_max_index_value(
        index_low: [i8; 16],
        values_low: [i8; 16],
        index_high: [i8; 16],
        values_high: [i8; 16],
    ) -> (r: (usize, u8, usize, u8)) {
        let (min_index, min_value) = Self::horiz_min(index_low, values_low);
        let (max_index, max_value) = Self::horiz_max(index_high, values_high);
        // The ordinals decrease: the largest ordinal belongs to the smallest
        // element and the other way round.
        (max_index, max_value, min_index, min_value)
    }
}

impl SIMDArgMinMax<u8> for SSE {
    fn argminmax(data: &[u8]) -> (r: (usize, usize)) {
        argminmax_generic::<u8, SSE>(data)
    }
}

/// Sixty-four lanes. A comparison gives a word with one bit for each lane.
impl SIMDOps<u8> for AVX512 {
    type Vector = [i8; 64];

    type Mask = u64;

    open spec fn lane_size() -> int {
        64
    }

    open spec fn max_index() -> int {
        i8::MAX as int
    }

    open spec fn lane_min() -> int {
        i8::MIN as int
    }

    open spec fn lanes(v: [i8; 64]) -> Seq<int> {
        lane_vals(v)
    }

    open spec fn flags(m: u64) -> Seq<bool> {
        Seq::new(64, |k: int| bit_set(m, k))
    }

    open spec fn key(x: u8) -> int {
        127 - x as int
    }

    open spec fn decreasing() -> bool {
        true
    }

    proof fn lemma_shape() {
    }

    proof fn lemma_lanes_len(v: [i8; 64]) {
    }

    proof fn lemma_key_order(a: u8, b: u8) {
    }

    fn lane_count() -> (l: usize) {
        get_lane_size::<AVX512>(8)
    }

    fn index_limit() -> (m: usize) {
        i8::MAX as usize
    }

    fn initial_index() -> (v: [i8; 64]) {
        lanes_iota()
    }

    fn index_increment() -> (v: [i8; 64]) {
        lanes_splat(64)
    }

    fn load(data: &[u8], at: usize) -> (v: [i8; 64]) {
        load_as_i8decrord(data, at)
    }

    fn add(a: [i8; 64], b: [i8; 64]) -> (v: [i8; 64]) {
        lanes_add(a, b)
    }

    fn mask_gt(a: [i8; 64], b: [i8; 64]) -> (m: u64) {
        flags_to_bits(lanes_gt(a, b))
    }

    fn mask_lt(a: [i8; 64], b: [i8; 64]) -> (m: u64) {
        flags_to_bits(lanes_lt(a, b))
    }

    fn blendv(a: [i8; 64], b: [i8; 64], mask: u64) -> (v: [i8; 64]) {
        lanes_blend(a, b, bits_to_flags(mask))
    }

    fn horiz_min(index: [i8; 64], value: [i8; 64]) -> (r: (usize, u8)) {
        let (min_index, min_value) = horiz_512(index, value, false);
        (min_index.to_index(), i8decrord_to_u8(min_value))
    }

    fn horiz_max(index: [i8; 64], value: [i8; 64]) -> (r: (usize, u8)) {
        let (max_index, max_value) = horiz_512(index, value, true);
        (max_index.to_index(), i8decrord_to_u8(max_value))
    }

    fn get_min_max_index_value(
        index_low: [i8; 64],
        values_low: [i8; 64],
        index_high: [i8; 64],
        values_high: [i8; 64],
    ) -> (r: (usize, u8, usize, u8)) {
        let (min_index, min_value) = Self::horiz_min(index_low, values_low);
        let (max_index, max_value) = Self::horiz_max(index_high, values_high);
        // The ordinals decrease: the largest ordinal belongs to the smallest
        // element and the other way round.
        (max_index, max_value, min_index, min_value)
    }
}

impl SIMDArgMinMax<u8> for AVX512 {
    fn argminmax(data: &[u8]) -> (r: (usize, usize)) {
        argminmax_generic::<u8, AVX512>(data)
    }
}

/// Sixteen lanes.
impl SIMDOps<u8> for NEON {
    type Vector = [i8; 16];

    type Mask = [bool; 16];

    open spec fn lane_size() -> int {
        16
    }

    open spec fn max_index() -> int {
        i8::MAX as int
    }

    open spec fn lane_min() -> int {
        i8::MIN as int
    }

    open spec fn lanes(v: [i8; 16]) -> Seq<int> {
        lane_vals(v)
    }

    open spec fn flags(m: [bool; 16]) -> Seq<bool> {
        m@
    }

    open spec fn key(x: u8) -> int {
        127 - x as int
    }

    open spec fn decreasing() -> bool {
        true
    }

    proof fn lemma_shape() {
    }

    proof fn lemma_lanes_len(v: [i8; 16]) {
    }

    proof fn lemma_key_order(a: u8, b: u8) {
    }

    fn lane_count() -> (l: usize) {
        get_lane_size::<NEON>(8)
    }

    fn index_limit() -> (m: usize) {
        i8::MAX as usize
    }

    fn initial_index() -> (v: [i8; 16]) {
        lanes_iota()
    }

    fn index_increment() -> (v: [i8; 16]) {
        lanes_splat(16)
    }

    fn load(data: &[u8], at: usize) -> (v: [i8; 16]) {
        load_as_i8decrord(data, at)
    }

    fn add(a: [i8; 16], b: [i8; 16]) -> (v: [i8; 16]) {
        lanes_add(a, b)
    }

    fn mask_gt(a: [i8; 16], b: [i8; 16]) -> (m: [bool; 16]) {
        lanes_gt(a, b)
    }

    fn mask_lt(a: [i8; 16], b: [i8; 16]) -> (m: [bool; 16]) {
        lanes_lt(a, b)
    }

    fn blendv(a: [i8; 16], b: [i8; 16], mask: [bool; 16]) -> (v: [i8; 16]) {
        lanes_blend(a, b, mask)
    }

    fn horiz_min(index: [i8; 16], value: [i8; 16]) -> (r: (usize, u8)) {
        let (min_index, min_value) = horiz_128(index, value, false);
        (min_index.to_index(), i8decrord_to_u8(min_value))
    }

    fn horiz_max(index: [i8; 16], value: [i8; 16]) -> (r: (usize, u8)) {
        let (max_index, max_value) = horiz_128(index, value, true);
        (max_index.to_index(), i8decrord_to_u8(max_value))
    }

    fn get_min_max_index_value(
        index_low: [i8; 16],
        values_low: [i8; 16],
        index_high: [i8; 16],
        values_high: [i8; 16],
    ) -> (r: (usize, u8, usize, u8)) {
        let (min_index, min_value) = Self::horiz_min(index_low, values_low);
        let (max_index, max_value) = Self::horiz_max(index_high, values_high);
        // The ordinals decrease: the largest ordinal belongs to the smallest
        // element and the other way round.
        (max_index, max_value, min_index, min_value)
    }
}

impl SIMDArgMinMax<u8> for NEON {
    fn argminmax(data: &[u8]) -> (r: (usize, usize)) {
        argminmax_generic::<u8, NEON>(data)
    }
}

} // verus!
