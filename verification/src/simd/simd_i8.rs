//! Kernels for signed bytes. The elements are their own ordinals.
//!
//! An index lane is one byte wide, so a segment ends after at most 127
//! elements and the registers are reduced often. The reductions are therefore
//! done inside the registers.
use crate::lane::{
    lane_vals, lanes_add, lanes_blend, lanes_gt, lanes_iota, lanes_load, lanes_lt, lanes_splat,
    Lane,
};
use crate::reduce::{bit_set, bits_to_flags, flags_to_bits, horiz_128, horiz_256, horiz_512};
use crate::simd::config::{get_lane_size, AVX2, AVX512, NEON, SSE};
use crate::simd::generic::{SIMDArgMinMax, SIMDOps};
use crate::simd::task::argminmax_generic;
use vstd::prelude::*;

verus! {

/// Thirty-two lanes. The family has no signed less-than for this width: it is
/// the greater-than with the operands swapped.
impl SIMDOps<i8> for AVX2 {
    type Vector = [i8; 32];

    type Mask = [bool; 32];

    open spec fn lane_size() -> int {
        32
    }

    open spec fn max_index() -> int {
        i8::MAX as int
    }

    open spec fn lane_min() -> int {
        i8::MIN as int
    }

    open spec fn lanes(v: [i8; 32]) -> Seq<int> {
        lane_vals(v)
    }

    open spec fn flags(m: [bool; 32]) -> Seq<bool> {
        m@
    }

    open spec fn key(x: i8) -> int {
        x as int
    }

    open spec fn decreasing() -> bool {
        false
    }

    proof fn lemma_shape() {
    }

    proof fn lemma_lanes_len(v: [i8; 32]) {
    }

    proof fn lemma_key_order(a: i8, b: i8) {
    }

    fn lane_count() -> (l: usize) {
        get_lane_size::<AVX2>(8)
    }

    fn index_limit() -> (m: usize) {
        i8::MAX as usize
    }

    fn initial_index() -> (v: [i8; 32]) {
        lanes_iota()
    }

    fn index_increment() -> (v: [i8; 32]) {
        lanes_splat(32)
    }

    fn load(data: &[i8], at: usize) -> (v: [i8; 32]) {
        lanes_load(data, at)
    }

    fn add(a: [i8; 32], b: [i8; 32]) -> (v: [i8; 32]) {
        lanes_add(a, b)
    }

    fn mask_gt(a: [i8; 32], b: [i8; 32]) -> (m: [bool; 32]) {
        lanes_gt(a, b)
    }

    fn mask_lt(a: [i8; 32], b: [i8; 32]) -> (m: [bool; 32]) {
        lanes_gt(b, a)
    }

    fn blendv(a: [i8; 32], b: [i8; 32], mask: [bool; 32]) -> (v: [i8; 32]) {
        lanes_blend(a, b, mask)
    }

    fn horiz_min(index: [i8; 32], value: [i8; 32]) -> (r: (usize, i8)) {
        let (min_index, min_value) = horiz_256(index, value, false);
        (min_index.to_index(), min_value)
    }

    fn horiz_max(index: [i8; 32], value: [i8; 32]) -> (r: (usize, i8)) {
        let (max_index, max_value) = horiz_256(index, value, true);
        (max_index.to_index(), max_value)
    }

    fn get_min_max_index_value(
        index_low: [i8; 32],
        values_low: [i8; 32],
        index_high: [i8; 32],
        values_high: [i8; 32],
    ) -> (r: (usize, i8, usize, i8)) {
        let (min_index, min_value) = Self::horiz_min(index_low, values_low);
        let (max_index, max_value) = Self::horiz_max(index_high, values_high);
        (min_index, min_value, max_index, max_value)
    }
}

impl SIMDArgMinMax<i8> for AVX2 {
    fn argminmax(data: &[i8]) -> (r: (usize, usize)) {
        argminmax_generic::<i8, AVX2>(data)
    }
}

/// Sixteen lanes.
impl SIMDOps<i8> for SSE {
    type Vector = [i8; 16];

    type Mask = [bool; 16];

    open spec fn lane_size() -> int {
        16
    }

    open spec fn max_index() -> int {
        i8::MAX as int
    }

    open spec fn lane_min() -> int {
        i8::MIN as int
    }

    open spec fn lanes(v: [i8; 16]) -> Seq<int> {
        lane_vals(v)
    }

    open spec fn flags(m: [bool; 16]) -> Seq<bool> {
        m@
    }

    open spec fn key(x: i8) -> int {
        x as int
    }

    open spec fn decreasing() -> bool {
        false
    }

    proof fn lemma_shape() {
    }

    proof fn lemma_lanes_len(v: [i8; 16]) {
    }

    proof fn lemma_key_order(a: i8, b: i8) {
    }

    fn lane_count() -> (l: usize) {
        get_lane_size::<SSE>(8)
    }

    fn index_limit() -> (m: usize) {
        i8::MAX as usize
    }

    fn initial_index() -> (v: [i8; 16]) {
        lanes_iota()
    }

    fn index_increment() -> (v: [i8; 16]) {
        lanes_splat(16)
    }

    fn load(data: &[i8], at: usize) -> (v: [i8; 16]) {
        lanes_load(data, at)
    }

    fn add(a: [i8; 16], b: [i8; 16]) -> (v: [i8; 16]) {
        lanes_add(a, b)
    }

    fn mask_gt(a: [i8; 16], b: [i8; 16]) -> (m: [bool; 16]) {
        lanes_gt(a, b)
    }

    fn mask_lt(a: [i8; 16], b: [i8; 16]) -> (m: [bool; 16]) {
        lanes_lt(a, b)
    }

    fn blendv(a: [i8; 16], b: [i8; 16], mask: [bool; 16]) -> (v: [i8; 16]) {
        lanes_blend(a, b, mask)
    }

    fn horiz_min(index: [i8; 16], value: [i8; 16]) -> (r: (usize, i8)) {
        let (min_index, min_value) = horiz_128(index, value, false);
        (min_index.to_index(), min_value)
    }

    fn horiz_max(index: [i8; 16], value: [i8; 16]) -> (r: (usize, i8)) {
        let (max_index, max_value) = horiz_128(index, value, true);
        (max_index.to_index(), max_value)
    }

    fn get_min_max_index_value(
        index_low: [i8; 16],
        values_low: [i8; 16],
        index_high: [i8; 16],
        values_high: [i8; 16],
    ) -> (r: (usize, i8, usize, i8)) {
        let (min_index, min_value) = Self::horiz_min(index_low, values_low);
        let (max_index, max_value) = Self::horiz_max(index_high, values_high);
        (min_index, min_value, max_index, max_value)
    }
}

impl SIMDArgMinMax<i8> for SSE {
    fn argminmax(data: &[i8]) -> (r: (usize, usize)) {
        argminmax_generic::<i8, SSE>(data)
    }
}

/// Sixty-four lanes. A comparison gives a word with one bit for each lane.
impl SIMDOps<i8> for AVX512 {
    type Vector = [i8; 64];

    type Mask = u64;

    open spec fn lane_size() -> int {
        64
    }

    open spec fn max_index() -> int {
        i8::MAX as int
    }

    open spec fn lane_min() -> int {
        i8::MIN as int
    }

    open spec fn lanes(v: [i8; 64]) -> Seq<int> {
        lane_vals(v)
    }

    open spec fn flags(m: u64) -> Seq<bool> {
        Seq::new(64, |k: int| bit_set(m, k))
    }

    open spec fn key(x: i8) -> int {
        x as int
    }

    open spec fn decreasing() -> bool {
        false
    }

    proof fn lemma_shape() {
    }

    proof fn lemma_lanes_len(v: [i8; 64]) {
    }

    proof fn lemma_key_order(a: i8, b: i8) {
    }

    fn lane_count() -> (l: usize) {
        get_lane_size::<AVX512>(8)
    }

    fn index_limit() -> (m: usize) {
        i8::MAX as usize
    }

    fn initial_index() -> (v: [i8; 64]) {
        lanes_iota()
    }

    fn index_increment() -> (v: [i8; 64]) {
        lanes_splat(64)
    }

    fn load(data: &[i8], at: usize) -> (v: [i8; 64]) {
        lanes_load(data, at)
    }

    fn add(a: [i8; 64], b: [i8; 64]) -> (v: [i8; 64]) {
        lanes_add(a, b)
    }

    fn mask_gt(a: [i8; 64], b: [i8; 64]) -> (m: u64) {
        flags_to_bits(lanes_gt(a, b))
    }

    fn mask_lt(a: [i8; 64], b: [i8; 64]) -> (m: u64) {
        flags_to_bits(lanes_lt(a, b))
    }

    fn blendv(a: [i8; 64], b: [i8; 64], mask: u64) -> (v: [i8; 64]) {
        lanes_blend(a, b, bits_to_flags(mask))
    }

    fn horiz_min(index: [i8; 64], value: [i8; 64]) -> (r: (usize, i8)) {
        let (min_index, min_value) = horiz_512(index, value, false);
        (min_index.to_index(), min_value)
    }

    fn horiz_max(index: [i8; 64], value: [i8; 64]) -> (r: (usize, i8)) {
        let (max_index, max_value) = horiz_512(index, value, true);
        (max_index.to_index(), max_value)
    }

    fn get_min_max_index_value(
        index_low: [i8; 64],
        values_low: [i8; 64],
        index_high: [i8; 64],
        values_high: [i8; 64],
    ) -> (r: (usize, i8, usize, i8)) {
        let (min_index, min_value) = Self::horiz_min(index_low, values_low);
        let (max_index, max_value) = Self::horiz_max(index_high, values_high);
        (min_index, min_value, max_index, max_value)
    }
}

impl SIMDArgMinMax<i8> for AVX512 {
    fn argminmax(data: &[i8]) -> (r: (usize, usize)) {
        argminmax_generic::<i8, AVX512>(data)
    }
}

/// Sixteen lanes.
impl SIMDOps<i8> for NEON {
    type Vector = [i8; 16];

    type Mask = [bool; 16];

    open spec fn lane_size() -> int {
        16
    }

    open spec fn max_index() -> int {
        i8::MAX as int
    }

    open spec fn lane_min() -> int {
        i8::MIN as int
    }

    open spec fn lanes(v: [i8; 16]) -> Seq<int> {
        lane_vals(v)
    }

    open spec fn flags(m: [bool; 16]) -> Seq<bool> {
        m@
    }

    open spec fn key(x: i8) -> int {
        x as int
    }

    open spec fn decreasing() -> bool {
        false
    }

    proof fn lemma_shape() {
    }

    proof fn lemma_lanes_len(v: [i8; 16]) {
    }

    proof fn lemma_key_order(a: i8, b: i8) {
    }

    fn lane_count() -> (l: usize) {
        get_lane_size::<NEON>(8)
    }

    fn index_limit() -> (m: usize) {
        i8::MAX as usize
    }

    fn initial_index() -> (v: [i8; 16]) {
        lanes_iota()
    }

    fn index_increment() -> (v: [i8; 16]) {
        lanes_splat(16)
    }

    fn load(data: &[i8], at: usize) -> (v: [i8; 16]) {
        lanes_load(data, at)
    }

    fn add(a: [i8; 16], b: [i8; 16]) -> (v: [i8; 16]) {
        lanes_add(a, b)
    }

    fn mask_gt(a: [i8; 16], b: [i8; 16]) -> (m: [bool; 16]) {
        lanes_gt(a, b)
    }

    fn mask_lt(a: [i8; 16], b: [i8; 16]) -> (m: [bool; 16]) {
        lanes_lt(a, b)
    }

    fn blendv(a: [i8; 16], b: [i8; 16], mask: [bool; 16]) -> (v: [i8; 16]) {
        lanes_blend(a, b, mask)
    }

    fn horiz_min(index: [i8; 16], value: [i8; 16]) -> (r: (usize, i8)) {
        let (min_index, min_value) = horiz_128(index, value, false);
        (min_index.to_index(), min_value)
    }

    fn horiz_max(index: [i8; 16], value: [i8; 16]) -> (r: (usize, i8)) {
        let (max_index, max_value) = horiz_128(index, value, true);
        (max_index.to_index(), max_value)
    }

    fn get_min_max_index_value(
        index_low: [i8; 16],
        values_low: [i8; 16],
        index_high: [i8; 16],
        values_high: [i8; 16],
    ) -> (r: (usize, i8, usize, i8)) {
        let (min_index, min_value) = Self::horiz_min(index_low, values_low);
        let (max_index, max_value) = Self::horiz_max(index_high, values_high);
        (min_index, min_value, max_index, max_value)
    }
}

impl SIMDArgMinMax<i8> for NEON {
    fn argminmax(data: &[i8]) -> (r: (usize, usize)) {
        argminmax_generic::<i8, NEON>(data)
    }
}

} // verus!
