//! Kernels for signed 32-bit integers. The elements are their own ordinals.
use crate::lane::{
    lane_vals, lanes_add, lanes_blend, lanes_gt, lanes_iota, lanes_load, lanes_lt, lanes_splat,
    max_index_value, min_index_value, Lane,
};
use crate::reduce::{bit_set, bits_to_flags, flags_to_bits};
use crate::simd::config::{get_lane_size, AVX2, AVX512, NEON, SSE};
use crate::simd::generic::{SIMDArgMinMax, SIMDOps};
use crate::simd::task::argminmax_generic;
use vstd::prelude::*;

verus! {

/// Eight lanes. The family has no signed less-than for this width: it is the
/// greater-than with the operands swapped.
impl SIMDOps<i32> for AVX2 {
    type Vector = [i32; 8];

    type Mask = [bool; 8];

    open spec fn lane_size() -> int {
        8
    }

    open spec fn max_index() -> int {
        i32::MAX as int
    }

    open spec fn lane_min() -> int {
        i32::MIN as int
    }

    open spec fn lanes(v: [i32; 8]) -> Seq<int> {
        lane_vals(v)
    }

    open spec fn flags(m: [bool; 8]) -> Seq<bool> {
        m@
    }

    open spec fn key(x: i32) -> int {
        x as int
    }

    open spec fn decreasing() -> bool {
        false
    }

    proof fn lemma_shape() {
    }

    proof fn lemma_lanes_len(v: [i32; 8]) {
    }

    proof fn lemma_key_order(a: i32, b: i32) {
    }

    fn lane_count() -> (l: usize) {
        get_lane_size::<AVX2>(32)
    }

    fn index_limit() -> (m: usize) {
        i32::MAX as usize
    }

    fn initial_index() -> (v: [i32; 8]) {
        lanes_iota()
    }

    fn index_increment() -> (v: [i32; 8]) {
        lanes_splat(8)
    }

    fn load(data: &[i32], at: usize) -> (v: [i32; 8]) {
        lanes_load(data, at)
    }

    fn add(a: [i32; 8], b: [i32; 8]) -> (v: [i32; 8]) {
        lanes_add(a, b)
    }

    fn mask_gt(a: [i32; 8], b: [i32; 8]) -> (m: [bool; 8]) {
        lanes_gt(a, b)
    }

    fn mask_lt(a: [i32; 8], b: [i32; 8]) -> (m: [bool; 8]) {
        lanes_gt(b, a)
    }

    fn blendv(a: [i32; 8], b: [i32; 8], mask: [bool; 8]) -> (v: [i32; 8]) {
        lanes_blend(a, b, mask)
    }

    fn horiz_min(index: [i32; 8], value: [i32; 8]) -> (r: (usize, i32)) {
        let (min_index, min_value) = min_index_value(&index, &value);
        (min_index.to_index(), min_value)
    }

    fn horiz_max(index: [i32; 8], value: [i32; 8]) -> (r: (usize, i32)) {
        let (max_index, max_value) = max_index_value(&index, &value);
        (max_index.to_index(), max_value)
    }

    fn get_min_max_index_value(
        index_low: [i32; 8],
        values_low: [i32; 8],
        index_high: [i32; 8],
        values_high: [i32; 8],
    ) -> (r: (usize, i32, usize, i32)) {
        let (min_index, min_value) = Self::horiz_min(index_low, values_low);
        let (max_index, max_value) = Self::horiz_max(index_high, values_high);
        (min_index, min_value, max_index, max_value)
    }
}

impl SIMDArgMinMax<i32> for AVX2 {
    fn argminmax(data: &[i32]) -> (r: (usize, usize)) {
        argminmax_generic::<i32, AVX2>(data)
    }
}

/// Four lanes.
impl SIMDOps<i32> for SSE {
    type Vector = [i32; 4];

    type Mask = [bool; 4];

    open spec fn lane_size() -> int {
        4
    }

    open spec fn max_index() -> int {
        i32::MAX as int
    }

    open spec fn lane_min() -> int {
        i32::MIN as int
    }

    open spec fn lanes(v: [i32; 4]) -> Seq<int> {
        lane_vals(v)
    }

    open spec fn flags(m: [bool; 4]) -> Seq<bool> {
        m@
    }

    open spec fn key(x: i32) -> int {
        x as int
    }

    open spec fn decreasing() -> bool {
        false
    }

    proof fn lemma_shape() {
    }

    proof fn lemma_lanes_len(v: [i32; 4]) {
    }

    proof fn lemma_key_order(a: i32, b: i32) {
    }

    fn lane_count() -> (l: usize) {
        get_lane_size::<SSE>(32)
    }

    fn index_limit() -> (m: usize) {
        i32::MAX as usize
    }

    fn initial_index() -> (v: [i32; 4]) {
        lanes_iota()
    }

    fn index_increment() -> (v: [i32; 4]) {
        lanes_splat(4)
    }

    fn load(data: &[i32], at: usize) -> (v: [i32; 4]) {
        lanes_load(data, at)
    }

    fn add(a: [i32; 4], b: [i32; 4]) -> (v: [i32; 4]) {
        lanes_add(a, b)
    }

    fn mask_gt(a: [i32; 4], b: [i32; 4]) -> (m: [bool; 4]) {
        lanes_gt(a, b)
    }

    fn mask_lt(a: [i32; 4], b: [i32; 4]) -> (m: [bool; 4]) {
        lanes_lt(a, b)
    }

    fn blendv(a: [i32; 4], b: [i32; 4], mask: [bool; 4]) -> (v: [i32; 4]) {
        lanes_blend(a, b, mask)
    }

    fn horiz_min(index: [i32; 4], value: [i32; 4]) -> (r: (usize, i32)) {
        let (min_index, min_value) = min_index_value(&index, &value);
        (min_index.to_index(), min_value)
    }

    fn horiz_max(index: [i32; 4], value: [i32; 4]) -> (r: (usize, i32)) {
        let (max_index, max_value) = max_index_value(&index, &value);
        (max_index.to_index(), max_value)
    }

    fn get_min_max_index_value(
        index_low: [i32; 4],
        values_low: [i32; 4],
        index_high: [i32; 4],
        values_high: [i32; 4],
    ) -> (r: (usize, i32, usize, i32)) {
        let (min_index, min_value) = Self::horiz_min(index_low, values_low);
        let (max_index, max_value) = Self::horiz_max(index_high, values_high);
        (min_index, min_value, max_index, max_value)
    }
}

impl SIMDArgMinMax<i32> for SSE {
    fn argminmax(data: &[i32]) -> (r: (usize, usize)) {
        argminmax_generic::<i32, SSE>(data)
    }
}

/// Sixteen lanes. A comparison gives a word with one bit for each lane.
impl SIMDOps<i32> for AVX512 {
    type Vector = [i32; 16];

    type Mask = u64;

    open spec fn lane_size() -> int {
        16
    }

    open spec fn max_index() -> int {
        i32::MAX as int
    }

    open spec fn lane_min() -> int {
        i32::MIN as int
    }

    open spec fn lanes(v: [i32; 16]) -> Seq<int> {
        lane_vals(v)
    }

    open spec fn flags(m: u64) -> Seq<bool> {
        Seq::new(16, |k: int| bit_set(m, k))
    }

    open spec fn key(x: i32) -> int {
        x as int
    }

    open spec fn decreasing() -> bool {
        false
    }

    proof fn lemma_shape() {
    }

    proof fn lemma_lanes_len(v: [i32; 16]) {
    }

    proof fn lemma_key_order(a: i32, b: i32) {
    }

    fn lane_count() -> (l: usize) {
        get_lane_size::<AVX512>(32)
    }

    fn index_limit() -> (m: usize) {
        i32::MAX as usize
    }

    fn initial_index() -> (v: [i32; 16]) {
        lanes_iota()
    }

    fn index_increment() -> (v: [i32; 16]) {
        lanes_splat(16)
    }

    fn load(data: &[i32], at: usize) -> (v: [i32; 16]) {
        lanes_load(data, at)
    }

    fn add(a: [i32; 16], b: [i32; 16]) -> (v: [i32; 16]) {
        lanes_add(a, b)
    }

    fn mask_gt(a: [i32; 16], b: [i32; 16]) -> (m: u64) {
        flags_to_bits(lanes_gt(a, b))
    }

    fn mask_lt(a: [i32; 16], b: [i32; 16]) -> (m: u64) {
        flags_to_bits(lanes_lt(a, b))
    }

    fn blendv(a: [i32; 16], b: [i32; 16], mask: u64) -> (v: [i32; 16]) {
        lanes_blend(a, b, bits_to_flags(mask))
    }

    fn horiz_min(index: [i32; 16], value: [i32; 16]) -> (r: (usize, i32)) {
        let (min_index, min_value) = min_index_value(&index, &value);
        (min_index.to_index(), min_value)
    }

    fn horiz_max(index: [i32; 16], value: [i32; 16]) -> (r: (usize, i32)) {
        let (max_index, max_value) = max_index_value(&index, &value);
        (max_index.to_index(), max_value)
    }

    fn get_min_max_index_value(
        index_low: [i32; 16],
        values_low: [i32; 16],
        index_high: [i32; 16],
        values_high: [i32; 16],
    ) -> (r: (usize, i32, usize, i32)) {
        let (min_index, min_value) = Self::horiz_min(index_low, values_low);
        let (max_index, max_value) = Self::horiz_max(index_high, values_high);
        (min_index, min_value, max_index, max_value)
    }
}

impl SIMDArgMinMax<i32> for AVX512 {
    fn argminmax(data: &[i32]) -> (r: (usize, usize)) {
        argminmax_generic::<i32, AVX512>(data)
    }
}

/// Four lanes.
impl SIMDOps<i32> for NEON {
    type Vector = [i32; 4];

    type Mask = [bool; 4];

    open spec fn lane_size() -> int {
        4
    }

    open spec fn max_index() -> int {
        i32::MAX as int
    }

    open spec fn lane_min() -> int {
        i32::MIN as int
    }

    open spec fn lanes(v: [i32; 4]) -> Seq<int> {
        lane_vals(v)
    }

    open spec fn flags(m: [bool; 4]) -> Seq<bool> {
        m@
    }

    open spec fn key(x: i32) -> int {
        x as int
    }

    open spec fn decreasing() -> bool {
        false
    }

    proof fn lemma_shape() {
    }

    proof fn lemma_lanes_len(v: [i32; 4]) {
    }

    proof fn lemma_key_order(a: i32, b: i32) {
    }

    fn lane_count() -> (l: usize) {
        get_lane_size::<NEON>(32)
    }

    fn index_limit() -> (m: usize) {
        i32::MAX as usize
    }

    fn initial_index() -> (v: [i32; 4]) {
        lanes_iota()
    }

    fn index_increment() -> (v: [i32; 4]) {
        lanes_splat(4)
    }

    fn load(data: &[i32], at: usize) -> (v: [i32; 4]) {
        lanes_load(data, at)
    }

    fn add(a: [i32; 4], b: [i32; 4]) -> (v: [i32; 4]) {
        lanes_add(a, b)
    }

    fn mask_gt(a: [i32; 4], b: [i32; 4]) -> (m: [bool; 4]) {
        lanes_gt(a, b)
    }

    fn mask_lt(a: [i32; 4], b: [i32; 4]) -> (m: [bool; 4]) {
        lanes_lt(a, b)
    }

    fn blendv(a: [i32; 4], b: [i32; 4], mask: [bool; 4]) -> (v: [i32; 4]) {
        lanes_blend(a, b, mask)
    }

    fn horiz_min(index: [i32; 4], value: [i32; 4]) -> (r: (usize, i32)) {
        let (min_index, min_value) = min_index_value(&index, &value);
        (min_index.to_index(), min_value)
    }

    fn horiz_max(index: [i32; 4], value: [i32; 4]) -> (r: (usize, i32)) {
        let (max_index, max_value) = max_index_value(&index, &value);
        (max_index.to_index(), max_value)
    }

    fn get_min_max_index_value(
        index_low: [i32; 4],
        values_low: [i32; 4],
        index_high: [i32; 4],
        values_high: [i32; 4],
    ) -> (r: (usize, i32, usize, i32)) {
        let (min_index, min_value) = Self::horiz_min(index_low, values_low);
        let (max_index, max_value) = Self::horiz_max(index_high, values_high);
        (min_index, min_value, max_index, max_value)
    }
}

impl SIMDArgMinMax<i32> for NEON {
    fn argminmax(data: &[i32]) -> (r: (usize, usize)) {
        argminmax_generic::<i32, NEON>(data)
    }
}

} // verus!
