//! Kernels for unsigned 16-bit integers.
//!
//! The kernels compare signed lanes only. An element is therefore loaded with
//! its top bit flipped, which moves the range down by 2^15 and keeps the order.
use crate::lane::{
    lane_vals, lanes_add, lanes_blend, lanes_gt, lanes_iota, lanes_lt, lanes_splat,
    max_index_value, min_index_value, Lane,
};
use crate::ordinal::{i16ord_to_u16, u16_to_i16ord};
use crate::reduce::{bit_set, bits_to_flags, flags_to_bits};
use crate::simd::config::{get_lane_size, AVX2, AVX512, NEON, SSE};
use crate::simd::generic::{SIMDArgMinMax, SIMDOps};
use crate::simd::task::argminmax_generic;
use vstd::prelude::*;

verus! {

/// Reads the `L` integers of `data` that start at `at`, each as its ordinal.
fn load_as_i16ord<const L: usize>(data: &[u16], at: usize) -> (r: [i16; L])
    requires
        0 < L,
        at + L <= data@.len(),
    ensures
        forall|k: int| 0 <= k < L ==> r[k] as int == data@[at + k] as int - 0x8000,
{
    let mut r: [i16; L] = [0;L];
    let mut k: usize = 0;
    while k < L
        invariant
            k <= L,
            at + L <= data.len(),
            forall|j: int|
                0 <= j < k ==> r[j] as int == data@[at + j] as int - 0x8000,
        decreases L - k,
    {
        r[k] = u16_to_i16ord(data[at + k]);
        k += 1;
    }
    r
}

/// Sixteen lanes. The family has no signed less-than for this width: it is the
/// greater-than with the operands swapped.
impl SIMDOps<u16> for AVX2 {
    type Vector = [i16; 16];

    type Mask = [bool; 16];

    open spec fn lane_size() -> int {
        16
    }

    open spec fn max_index() -> int {
        i16::MAX as int
    }

    open spec fn lane_min() -> int {
        i16::MIN as int
    }

    open spec fn lanes(v: [i16; 16]) -> Seq<int> {
        lane_vals(v)
    }

    open spec fn flags(m: [bool; 16]) -> Seq<bool> {
        m@
    }

    open spec fn key(x: u16) -> int {
        x as int - 0x8000
    }

    open spec fn decreasing() -> bool {
        false
    }

    proof fn lemma_shape() {
    }

    proof fn lemma_lanes_len(v: [i16; 16]) {
    }

    proof fn lemma_key_order(a: u16, b: u16) {
    }

    fn lane_count() -> (l: usize) {
        get_lane_size::<AVX2>(16)
    }

    fn index_limit() -> (m: usize) {
        i16::MAX as usize
    }

    fn initial_index() -> (v: [i16; 16]) {
        lanes_iota()
    }

    fn index_increment() -> (v: [i16; 16]) {
        lanes_splat(16)
    }

    fn load(data: &[u16], at: usize) -> (v: [i16; 16]) {
        load_as_i16ord(data, at)
    }

    fn add(a: [i16; 16], b: [i16; 16]) -> (v: [i16; 16]) {
        lanes_add(a, b)
    }

    fn mask_gt(a: [i16; 16], b: [i16; 16]) -> (m: [bool; 16]) {
        lanes_gt(a, b)
    }

    fn mask_lt(a: [i16; 16], b: [i16; 16]) -> (m: [bool; 16]) {
        lanes_gt(b, a)
    }

    fn blendv(a: [i16; 16], b: [i16; 16], mask: [bool; 16]) -> (v: [i16; 16]) {
        lanes_blend(a, b, mask)
    }

    fn horiz_min(index: [i16; 16], value: [i16; 16]) -> (r: (usize, u16)) {
        let (min_index, min_value) = min_index_value(&index, &value);
        (min_index.to_index(), i16ord_to_u16(min_value))
    }

    fn horiz_max(index: [i16; 16], value: [i16; 16]) -> (r: (usize, u16)) {
        let (max_index, max_value) = max_index_value(&index, &value);
        (max_index.to_index(), i16ord_to_u16(max_value))
    }

    fn get_min_max_index_value(
        index_low: [i16; 16],
        values_low: [i16; 16],
        index_high: [i16; 16],
        values_high: [i16; 16],
    ) -> (r: (usize, u16, usize, u16)) {
        let (min_index, min_value) = Self::horiz_min(index_low, values_low);
        let (max_index, max_value) = Self::horiz_max(index_high, values_high);
        (min_index, min_value, max_index, max_value)
    }
}

impl SIMDArgMinMax<u16> for AVX2 {
    fn argminmax(data: &[u16]) -> (r: (usize, usize)) {
        argminmax_generic::<u16, AVX2>(data)
    }
}

/// Eight lanes.
impl SIMDOps<u16> for SSE {
    type Vector = [i16; 8];

    type Mask = [bool; 8];

    open spec fn lane_size() -> int {
        8
    }

    open spec fn max_index() -> int {
        i16::MAX as int
    }

    open spec fn lane_min() -> int {
        i16::MIN as int
    }

    open spec fn lanes(v: [i16; 8]) -> Seq<int> {
        lane_vals(v)
    }

    open spec fn flags(m: [bool; 8]) -> Seq<bool> {
        m@
    }

    open spec fn key(x: u16) -> int {
        x as int - 0x8000
    }

    open spec fn decreasing() -> bool {
        false
    }

    proof fn lemma_shape() {
    }

    proof fn lemma_lanes_len(v: [i16; 8]) {
    }

    proof fn lemma_key_order(a: u16, b: u16) {
    }

    fn lane_count() -> (l: usize) {
        get_lane_size::<SSE>(16)
    }

    fn index_limit() -> (m: usize) {
        i16::MAX as usize
    }

    fn initial_index() -> (v: [i16; 8]) {
        lanes_iota()
    }

    fn index_increment() -> (v: [i16; 8]) {
        lanes_splat(8)
    }

    fn load(data: &[u16], at: usize) -> (v: [i16; 8]) {
        load_as_i16ord(data, at)
    }

    fn add(a: [i16; 8], b: [i16; 8]) -> (v: [i16; 8]) {
        lanes_add(a, b)
    }

    fn mask_gt(a: [i16; 8], b: [i16; 8]) -> (m: [bool; 8]) {
        lanes_gt(a, b)
    }

    fn mask_lt(a: [i16; 8], b: [i16; 8]) -> (m: [bool; 8]) {
        lanes_lt(a, b)
    }

    fn blendv(a: [i16; 8], b: [i16; 8], mask: [bool; 8]) -> (v: [i16; 8]) {
        lanes_blend(a, b, mask)
    }

    fn horiz_min(index: [i16; 8], value: [i16; 8]) -> (r: (usize, u16)) {
        let (min_index, min_value) = min_index_value(&index, &value);
        (min_index.to_index(), i16ord_to_u16(min_value))
    }

    fn horiz_max(index: [i16; 8], value: [i16; 8]) -> (r: (usize, u16)) {
        let (max_index, max_value) = max_index_value(&index, &value);
        (max_index.to_index(), i16ord_to_u16(max_value))
    }

    fn get_min_max_index_value(
        index_low: [i16; 8],
        values_low: [i16; 8],
        index_high: [i16; 8],
        values_high: [i16; 8],
    ) -> (r: (usize, u16, usize, u16)) {
        let (min_index, min_value) = Self::horiz_min(index_low, values_low);
        let (max_index, max_value) = Self::horiz_max(index_high, values_high);
        (min_index, min_value, max_index, max_value)
    }
}

impl SIMDArgMinMax<u16> for SSE {
    fn argminmax(data: &[u16]) -> (r: (usize, usize)) {
        argminmax_generic::<u16, SSE>(data)
    }
}

/// Thirty-two lanes. A comparison gives a word with one bit for each lane.
impl SIMDOps<u16> for AVX512 {
    type Vector = [i16; 32];

    type Mask = u64;

    open spec fn lane_size() -> int {
        32
    }

    open spec fn max_index() -> int {
        i16::MAX as int
    }

    open spec fn lane_min() -> int {
        i16::MIN as int
    }

    open spec fn lanes(v: [i16; 32]) -> Seq<int> {
        lane_vals(v)
    }

    open spec fn flags(m: u64) -> Seq<bool> {
        Seq::new(32, |k: int| bit_set(m, k))
    }

    open spec fn key(x: u16) -> int {
        x as int - 0x8000
    }

    open spec fn decreasing() -> bool {
        false
    }

    proof fn lemma_shape() {
    }

    proof fn lemma_lanes_len(v: [i16; 32]) {
    }

    proof fn lemma_key_order(a: u16, b: u16) {
    }

    fn lane_count() -> (l: usize) {
        get_lane_size::<AVX512>(16)
    }

    fn index_limit() -> (m: usize) {
        i16::MAX as usize
    }

    fn initial_index() -> (v: [i16; 32]) {
        lanes_iota()
    }

    fn index_increment() -> (v: [i16; 32]) {
        lanes_splat(32)
    }

    fn load(data: &[u16], at: usize) -> (v: [i16; 32]) {
        load_as_i16ord(data, at)
    }

    fn add(a: [i16; 32], b: [i16; 32]) -> (v: [i16; 32]) {
        lanes_add(a, b)
    }

    fn mask_gt(a: [i16; 32], b: [i16; 32]) -> (m: u64) {
        flags_to_bits(lanes_gt(a, b))
    }

    fn mask_lt(a: [i16; 32], b: [i16; 32]) -> (m: u64) {
        flags_to_bits(lanes_lt(a, b))
    }

    fn blendv(a: [i16; 32], b: [i16; 32], mask: u64) -> (v: [i16; 32]) {
        lanes_blend(a, b, bits_to_flags(mask))
    }

    fn horiz_min(index: [i16; 32], value: [i16; 32]) -> (r: (usize, u16)) {
        let (min_index, min_value) = min_index_value(&index, &value);
        (min_index.to_index(), i16ord_to_u16(min_value))
    }

    fn horiz_max(index: [i16; 32], value: [i16; 32]) -> (r: (usize, u16)) {
        let (max_index, max_value) = max_index_value(&index, &value);
        (max_index.to_index(), i16ord_to_u16(max_value))
    }

    fn get_min_max_index_value(
        index_low: [i16; 32],
        values_low: [i16; 32],
        index_high: [i16; 32],
        values_high: [i16; 32],
    ) -> (r: (usize, u16, usize, u16)) {
        let (min_index, min_value) = Self::horiz_min(index_low, values_low);
        let (max_index, max_value) = Self::horiz_max(index_high, values_high);
        (min_index, min_value, max_index, max_value)
    }
}

impl SIMDArgMinMax<u16> for AVX512 {
    fn argminmax(data: &[u16]) -> (r: (usize, usize)) {
        argminmax_generic::<u16, AVX512>(data)
    }
}

/// Eight lanes.
impl SIMDOps<u16> for NEON {
    type Vector = [i16; 8];

    type Mask = [bool; 8];

    open spec fn lane_size() -> int {
        8
    }

    open spec fn max_index() -> int {
        i16::MAX as int
    }

    open spec fn lane_min() -> int {
        i16::MIN as int
    }

    open spec fn lanes(v: [i16; 8]) -> Seq<int> {
        lane_vals(v)
    }

    open spec fn flags(m: [bool; 8]) -> Seq<bool> {
        m@
    }

    open spec fn key(x: u16) -> int {
        x as int - 0x8000
    }

    open spec fn decreasing() -> bool {
        false
    }

    proof fn lemma_shape() {
    }

    proof fn lemma_lanes_len(v: [i16; 8]) {
    }

    proof fn lemma_key_order(a: u16, b: u16) {
    }

    fn lane_count() -> (l: usize) {
        get_lane_size::<NEON>(16)
    }

    fn index_limit() -> (m: usize) {
        i16::MAX as usize
    }

    fn initial_index() -> (v: [i16; 8]) {
        lanes_iota()
    }

    fn index_increment() -> (v: [i16; 8]) {
        lanes_splat(8)
    }

    fn load(data: &[u16], at: usize) -> (v: [i16; 8]) {
        load_as_i16ord(data, at)
    }

    fn add(a: [i16; 8], b: [i16; 8]) -> (v: [i16; 8]) {
        lanes_add(a, b)
    }

    fn mask_gt(a: [i16; 8], b: [i16; 8]) -> (m: [bool; 8]) {
        lanes_gt(a, b)
    }

    fn mask_lt(a: [i16; 8], b: [i16; 8]) -> (m: [bool; 8]) {
        lanes_lt(a, b)
    }

    fn blendv(a: [i16; 8], b: [i16; 8], mask: [bool; 8]) -> (v: [i16; 8]) {
        lanes_blend(a, b, mask)
    }

    fn horiz_min(index: [i16; 8], value: [i16; 8]) -> (r: (usize, u16)) {
        let (min_index, min_value) = min_index_value(&index, &value);
        (min_index.to_index(), i16ord_to_u16(min_value))
    }

    fn horiz_max(index: [i16; 8], value: [i16; 8]) -> (r: (usize, u16)) {
        let (max_index, max_value) = max_index_value(&index, &value);
        (max_index.to_index(), i16ord_to_u16(max_value))
    }

    fn get_min_max_index_value(
        index_low: [i16; 8],
        values_low: [i16; 8],
        index_high: [i16; 8],
        values_high: [i16; 8],
    ) -> (r: (usize, u16, usize, u16)) {
        let (min_index, min_value) = Self::horiz_min(index_low, values_low);
        let (max_index, max_value) = Self::horiz_max(index_high, values_high);
        (min_index, min_value, max_index, max_value)
    }
}

impl SIMDArgMinMax<u16> for NEON {
    fn argminmax(data: &[u16]) -> (r: (usize, usize)) {
        argminmax_generic::<u16, NEON>(data)
    }
}

} // verus!
