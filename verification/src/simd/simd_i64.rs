//! Kernels for signed 64-bit integers. The elements are their own ordinals.
//!
//! Beside the kernels for slices stands a 256-bit kernel for array views. It
//! is written out by itself: it takes the elements that do not fill a register
//! from the front of the view, and starts its index register at their number,
//! so that it counts positions of the whole view. The 128-bit family of ARM
//! has no kernel for elements of this width.
use crate::array_view::Int64View;
use crate::element::ords;
use crate::extrema::{is_argmax, is_argmin};
use crate::lane::{
    lane_vals, lanes_add, lanes_blend, lanes_first_max, lanes_first_min, lanes_gt, lanes_iota,
    lanes_load, lanes_lt, lanes_splat, max_index_value, min_index_value, Lane,
};
use crate::reduce::{bit_set, bits_to_flags, flags_to_bits};
use crate::simd::config::{get_lane_size, AVX2, AVX512, SSE};
use crate::simd::generic::{
    lanes_track_max, lanes_track_min, lemma_reduced_max, lemma_reduced_min, lemma_step_max,
    lemma_step_min, SIMDArgMinMax, SIMDOps,
};
use crate::simd::task::argminmax_generic;
use vstd::prelude::*;

verus! {

/// The scalar pass over a view: the positions of the first smallest and of
/// the first largest element.
pub fn simple_argminmax(arr: &Int64View) -> (r: (usize, usize))
    requires
        arr@.len() > 0,
    ensures
        is_argmin(ords(arr@), r.0 as int),
        is_argmax(ords(arr@), r.1 as int),
{
    let ghost keys = ords(arr@);
    let n: usize = arr.len();
    let mut low_index: usize = 0;
    let mut high_index: usize = 0;
    let mut low: i64 = arr.get(0);
    let mut high: i64 = arr.get(0);
    let mut i: usize = 0;
    while i < n
        invariant
            keys == ords(arr@),
            n == arr@.len(),
            i <= n,
            low_index < n,
            high_index < n,
            low == arr@[low_index as int],
            high == arr@[high_index as int],
            forall|j: int| 0 <= j < i ==> keys[low_index as int] <= #[trigger] keys[j],
            forall|j: int| 0 <= j < low_index ==> keys[low_index as int] < #[trigger] keys[j],
            forall|j: int| 0 <= j < i ==> keys[high_index as int] >= #[trigger] keys[j],
            forall|j: int| 0 <= j < high_index ==> keys[high_index as int] > #[trigger] keys[j],
        decreases n - i,
    {
        let item: i64 = arr.get(i);
        assert(keys[i as int] == item);
        assert(keys[low_index as int] == low);
        assert(keys[high_index as int] == high);
        if item < low {
            low = item;
            low_index = i;
        } else if item > high {
            high = item;
            high_index = i;
        }
        i += 1;
    }
    (low_index, high_index)
}

/// Cuts a view into the elements that do not fill a register, taken from the
/// front, and the whole registers behind them. A part that would be empty is
/// left out.
fn split_array<'a>(arr: Int64View<'a>, lane_size: usize) -> (r: (
    Option<Int64View<'a>>,
    Option<Int64View<'a>>,
))
    requires
        lane_size > 0,
    ensures
        ({
            let n = arr@.len() as int;
            let k = n % (lane_size as int);
            &&& r.0 is Some <==> k > 0
            &&& r.1 is Some <==> k < n
            &&& r.0 matches Some(rem) ==> rem@ == arr@.subrange(0, k)
            &&& r.1 matches Some(sim) ==> sim@ == arr@.subrange(k, n)
        }),
{
    let n: usize = arr.len();
    proof {
        vstd::arithmetic::div_mod::lemma_mod_decreases(n as nat, lane_size as nat);
    }
    let (left_arr, right_arr) = arr.split_at(n % lane_size);
    match (left_arr.is_empty(), right_arr.is_empty()) {
        (true, true) => (None, None),
        (false, false) => (Some(left_arr), Some(right_arr)),
        (true, false) => (None, Some(right_arr)),
        (false, true) => (Some(left_arr), None),
    }
}

/// Merges the result of the scalar pass over the front with that of the
/// kernel, both as `(min, argmin, max, argmax)` with positions in the whole
/// view. The better value wins; on equal values the smaller position does.
fn find_final_index_minmax(
    remainder_result: (i64, usize, i64, usize),
    simd_result: (i64, usize, i64, usize),
) -> (r: Option<(usize, usize)>)
    ensures
        r matches Some(p) && p.0 == (if remainder_result.0 < simd_result.0 {
            remainder_result.1
        } else if remainder_result.0 > simd_result.0 {
            simd_result.1
        } else if remainder_result.1 <= simd_result.1 {
            remainder_result.1
        } else {
            simd_result.1
        }) && p.1 == (if simd_result.2 < remainder_result.2 {
            remainder_result.3
        } else if simd_result.2 > remainder_result.2 {
            simd_result.3
        } else if remainder_result.3 <= simd_result.3 {
            remainder_result.3
        } else {
            simd_result.3
        }),
{
    let min_result: usize = if remainder_result.0 < simd_result.0 {
        remainder_result.1
    } else if remainder_result.0 > simd_result.0 {
        simd_result.1
    } else if remainder_result.1 <= simd_result.1 {
        remainder_result.1
    } else {
        simd_result.1
    };
    let max_result: usize = if simd_result.2 < remainder_result.2 {
        remainder_result.3
    } else if simd_result.2 > remainder_result.2 {
        simd_result.3
    } else if remainder_result.3 <= simd_result.3 {
        remainder_result.3
    } else {
        simd_result.3
    };
    Some((min_result, max_result))
}

/// Reads the four elements that start at `at` into a register.
fn loadu(arr: &Int64View, at: usize) -> (r: [i64; 4])
    requires
        at + 4 <= arr@.len() <= usize::MAX,
    ensures
        forall|k: int| 0 <= k < 4 ==> r[k] == arr@[at + k],
{
    [arr.get(at), arr.get(at + 1), arr.get(at + 2), arr.get(at + 3)]
}

/// The positions that an index register holds, counted from `offset`.
pub open spec fn positions_from(index: [i64; 4], offset: int) -> Seq<int> {
    Seq::new(4, |k: int| index[k] as int - offset)
}

/// The traversal with registers of four lanes. The index register starts at
/// `offset`, so the positions that come back are `offset` plus the positions
/// in `sim_arr`. They come back as `(min, argmin, max, argmax)`.
fn core_argminmax_256(sim_arr: &Int64View, offset: usize) -> (r: (i64, usize, i64, usize))
    requires
        sim_arr@.len() >= 4,
        sim_arr@.len() % 4 == 0,
        offset + sim_arr@.len() <= i64::MAX,
        offset + sim_arr@.len() <= usize::MAX,
    ensures
        offset <= r.1 < offset + sim_arr@.len(),
        offset <= r.3 < offset + sim_arr@.len(),
        is_argmin(ords(sim_arr@), r.1 - offset),
        is_argmax(ords(sim_arr@), r.3 - offset),
        r.0 == sim_arr@[r.1 - offset],
        r.2 == sim_arr@[r.3 - offset],
{
    let ghost keys = ords(sim_arr@);
    let n: usize = sim_arr.len();
    // The index register starts at the offset, not at zero.
    let offset_lanes: [i64; 4] = lanes_splat(offset as i64);
    let mut new_index: [i64; 4] = lanes_add([0, 1, 2, 3], offset_lanes);
    let mut index_low: [i64; 4] = new_index;
    let mut index_high: [i64; 4] = new_index;

    let increment: [i64; 4] = lanes_splat(4);

    let first_values: [i64; 4] = loadu(sim_arr, 0);
    let mut values_low: [i64; 4] = first_values;
    let mut values_high: [i64; 4] = first_values;

    let ghost mut owner: Seq<int> = Seq::new(4, |k: int| k);
    let mut i: usize = 4;
    while i < n
        invariant
            keys == ords(sim_arr@),
            n == sim_arr@.len(),
            n % 4 == 0,
            i % 4 == 0,
            4 <= i <= n,
            offset + n <= i64::MAX,
            offset + n <= usize::MAX,
            forall|k: int| 0 <= k < 4 ==> #[trigger] new_index[k] as int == offset + i - 4 + k,
            forall|k: int| 0 <= k < 4 ==> #[trigger] increment[k] == 4,
            lanes_track_min(
                keys,
                i as int,
                owner,
                positions_from(index_low, offset as int),
                lane_vals(values_low),
            ),
            lanes_track_max(
                keys,
                i as int,
                owner,
                positions_from(index_high, offset as int),
                lane_vals(values_high),
            ),
        decreases n - i,
    {
        let ghost old_index_low = positions_from(index_low, offset as int);
        let ghost old_values_low = lane_vals(values_low);
        let ghost old_index_high = positions_from(index_high, offset as int);
        let ghost old_values_high = lane_vals(values_high);

        new_index = lanes_add(new_index, increment);

        let new_values: [i64; 4] = loadu(sim_arr, i);
        let gt_mask: [bool; 4] = lanes_gt(new_values, values_high);
        // The family has no signed less-than: the operands are swapped and
        // the greater-than is used instead.
        let lt_mask: [bool; 4] = lanes_gt(values_low, new_values);

        values_high = lanes_blend(values_high, new_values, gt_mask);
        values_low = lanes_blend(values_low, new_values, lt_mask);

        index_low = lanes_blend(index_low, new_index, lt_mask);
        index_high = lanes_blend(index_high, new_index, gt_mask);

        proof {
            let shifted = positions_from(new_index, offset as int);
            assert forall|k: int| 0 <= k < 4 implies #[trigger] shifted[k] == i + k && lane_vals(
                new_values,
            )[k] == keys[i + k] by {
                assert(new_index[k] as int == offset + i + k);
            }
            lemma_step_min(
                keys,
                i as int,
                owner,
                old_index_low,
                old_values_low,
                shifted,
                lane_vals(new_values),
                positions_from(index_low, offset as int),
                lane_vals(values_low),
            );
            lemma_step_max(
                keys,
                i as int,
                owner,
                old_index_high,
                old_values_high,
                shifted,
                lane_vals(new_values),
                positions_from(index_high, offset as int),
                lane_vals(values_high),
            );
            owner = owner + Seq::new(4, |k: int| k);
        }
        i += 4;
    }
    // The largest value of the four lanes and its position.
    let (index_max, value_max) = max_index_value(&index_high, &values_high);

    // The smallest value of the four lanes and its position.
    let (index_min, value_min) = min_index_value(&index_low, &values_low);

    proof {
        lemma_positions_from_min(index_low, values_low, offset as int, index_min, value_min);
        lemma_positions_from_max(index_high, values_high, offset as int, index_max, value_max);
        lemma_reduced_min(
            keys,
            n as int,
            owner,
            positions_from(index_low, offset as int),
            lane_vals(values_low),
            index_min - offset,
            value_min as int,
        );
        lemma_reduced_max(
            keys,
            n as int,
            owner,
            positions_from(index_high, offset as int),
            lane_vals(values_high),
            index_max - offset,
            value_max as int,
        );
    }
    (value_min, index_min as usize, value_max, index_max as usize)
}

/// A reduction of an index register that counts from `offset` is, moved back
/// by `offset`, a reduction of the positions.
proof fn lemma_positions_from_min(index: [i64; 4], value: [i64; 4], offset: int, i: i64, v: i64)
    requires
        lanes_first_min(lane_vals(index), lane_vals(value), i as int, v as int),
    ensures
        lanes_first_min(positions_from(index, offset), lane_vals(value), i - offset, v as int),
{
    let iv = lane_vals(index);
    let vv = lane_vals(value);
    let pv = positions_from(index, offset);
    let k0 = choose|k: int| 0 <= k < vv.len() && #[trigger] vv[k] == v as int && iv[k] == i as int;
    assert(vv[k0] == v as int && pv[k0] == i - offset);
    assert forall|k: int| 0 <= k < vv.len() && #[trigger] vv[k] == v as int implies i - offset
        <= pv[k] by {
        assert(i as int <= iv[k]);
    }
}

/// As `lemma_positions_from_min`, for the maximum.
proof fn lemma_positions_from_max(index: [i64; 4], value: [i64; 4], offset: int, i: i64, v: i64)
    requires
        lanes_first_max(lane_vals(index), lane_vals(value), i as int, v as int),
    ensures
        lanes_first_max(positions_from(index, offset), lane_vals(value), i - offset, v as int),
{
    let iv = lane_vals(index);
    let vv = lane_vals(value);
    let pv = positions_from(index, offset);
    let k0 = choose|k: int| 0 <= k < vv.len() && #[trigger] vv[k] == v as int && iv[k] == i as int;
    assert(vv[k0] == v as int && pv[k0] == i - offset);
    assert forall|k: int| 0 <= k < vv.len() && #[trigger] vv[k] == v as int implies i - offset
        <= pv[k] by {
        assert(i as int <= iv[k]);
    }
}

/// Returns the positions of the first smallest and of the first largest
/// element of a view, or `None` for a view without elements.
///
/// The elements that do not fill a register of four lanes are taken from
/// the front and scanned one by one; the others go through the kernel. A
/// view so long that its positions do not fit a lane of 64 bits is scanned as
/// a whole.
pub fn argminmax_i64(arr: Int64View) -> (r: Option<(usize, usize)>)
    ensures
        r is None <==> arr@.len() == 0,
        r matches Some(p) ==> is_argmin(ords(arr@), p.0 as int) && is_argmax(
            ords(arr@),
            p.1 as int,
        ),
{
    let ghost elems = arr@;
    let ghost keys = ords(elems);
    let n: usize = arr.len();
    if n as u64 > i64::MAX as u64 {
        return Some(simple_argminmax(&arr));
    }
    match split_array(arr, 4) {
        (Some(rem), Some(sim)) => {
            let (rem_min_index, rem_max_index) = simple_argminmax(&rem);
            let rem_result = (
                rem.get(rem_min_index),
                rem_min_index,
                rem.get(rem_max_index),
                rem_max_index,
            );
            proof {
                let k = (n % 4) as int;
                assert(sim@.len() == n - k);
                assert((n - k) % 4 == 0);
            }
            let sim_result = core_argminmax_256(&sim, rem.len());
            proof {
                let k = (n % 4) as int;
                crate::element::lemma_ords_of_window(elems, 0, k);
                crate::element::lemma_ords_of_window(elems, k, n as int);
                crate::extrema::lemma_first_min_of_window(keys, 0, k, rem_min_index as int);
                crate::extrema::lemma_first_max_of_window(keys, 0, k, rem_max_index as int);
                crate::extrema::lemma_first_min_of_window(keys, k, n as int, sim_result.1 - k);
                crate::extrema::lemma_first_max_of_window(keys, k, n as int, sim_result.3 - k);
                crate::extrema::lemma_first_min_join(
                    keys,
                    0,
                    k,
                    n as int,
                    rem_min_index as int,
                    sim_result.1 as int,
                );
                crate::extrema::lemma_first_max_join(
                    keys,
                    0,
                    k,
                    n as int,
                    rem_max_index as int,
                    sim_result.3 as int,
                );
                assert(keys[rem_min_index as int] == rem_result.0);
                assert(keys[rem_max_index as int] == rem_result.2);
                assert(keys[sim_result.1 as int] == sim_result.0);
                assert(keys[sim_result.3 as int] == sim_result.2);
            }
            find_final_index_minmax(rem_result, sim_result)
        },
        (Some(rem), None) => {
            proof {
                assert(rem@ == elems);
            }
            let (rem_min_index, rem_max_index) = simple_argminmax(&rem);
            Some((rem_min_index, rem_max_index))
        },
        (None, Some(sim)) => {
            proof {
                assert(sim@ == elems);
            }
            let sim_result = core_argminmax_256(&sim, 0);
            Some((sim_result.1, sim_result.3))
        },
        (None, None) => None,
    }
}

/// Four lanes. The family has no signed less-than for this width: it is the
/// greater-than with the operands swapped.
impl SIMDOps<i64> for AVX2 {
    type Vector = [i64; 4];

    type Mask = [bool; 4];

    open spec fn lane_size() -> int {
        4
    }

    open spec fn max_index() -> int {
        i64::MAX as int
    }

    open spec fn lane_min() -> int {
        i64::MIN as int
    }

    open spec fn lanes(v: [i64; 4]) -> Seq<int> {
        lane_vals(v)
    }

    open spec fn flags(m: [bool; 4]) -> Seq<bool> {
        m@
    }

    open spec fn key(x: i64) -> int {
        x as int
    }

    open spec fn decreasing() -> bool {
        false
    }

    proof fn lemma_shape() {
    }

    proof fn lemma_lanes_len(v: [i64; 4]) {
    }

    proof fn lemma_key_order(a: i64, b: i64) {
    }

    fn lane_count() -> (l: usize) {
        get_lane_size::<AVX2>(64)
    }

    fn index_limit() -> (m: usize) {
        let limit: u64 = i64::MAX as u64;
        if limit > usize::MAX as u64 {
            usize::MAX
        } else {
            limit as usize
        }
    }

    fn initial_index() -> (v: [i64; 4]) {
        lanes_iota()
    }

    fn index_increment() -> (v: [i64; 4]) {
        lanes_splat(4)
    }

    fn load(data: &[i64], at: usize) -> (v: [i64; 4]) {
        lanes_load(data, at)
    }

    fn add(a: [i64; 4], b: [i64; 4]) -> (v: [i64; 4]) {
        lanes_add(a, b)
    }

    fn mask_gt(a: [i64; 4], b: [i64; 4]) -> (m: [bool; 4]) {
        lanes_gt(a, b)
    }

    fn mask_lt(a: [i64; 4], b: [i64; 4]) -> (m: [bool; 4]) {
        lanes_gt(b, a)
    }

    fn blendv(a: [i64; 4], b: [i64; 4], mask: [bool; 4]) -> (v: [i64; 4]) {
        lanes_blend(a, b, mask)
    }

    fn horiz_min(index: [i64; 4], value: [i64; 4]) -> (r: (usize, i64)) {
        let (min_index, min_value) = min_index_value(&index, &value);
        (min_index.to_index(), min_value)
    }

    fn horiz_max(index: [i64; 4], value: [i64; 4]) -> (r: (usize, i64)) {
        let (max_index, max_value) = max_index_value(&index, &value);
        (max_index.to_index(), max_value)
    }

    fn get_min_max_index_value(
        index_low: [i64; 4],
        values_low: [i64; 4],
        index_high: [i64; 4],
        values_high: [i64; 4],
    ) -> (r: (usize, i64, usize, i64)) {
        let (min_index, min_value) = Self::horiz_min(index_low, values_low);
        let (max_index, max_value) = Self::horiz_max(index_high, values_high);
        (min_index, min_value, max_index, max_value)
    }
}

impl SIMDArgMinMax<i64> for AVX2 {
    fn argminmax(data: &[i64]) -> (r: (usize, usize)) {
        argminmax_generic::<i64, AVX2>(data)
    }
}

/// Two lanes. The family has no signed less-than for this width: it is the
/// greater-than with the operands swapped.
impl SIMDOps<i64> for SSE {
    type Vector = [i64; 2];

    type Mask = [bool; 2];

    open spec fn lane_size() -> int {
        2
    }

    open spec fn max_index() -> int {
        i64::MAX as int
    }

    open spec fn lane_min() -> int {
        i64::MIN as int
    }

    open spec fn lanes(v: [i64; 2]) -> Seq<int> {
        lane_vals(v)
    }

    open spec fn flags(m: [bool; 2]) -> Seq<bool> {
        m@
    }

    open spec fn key(x: i64) -> int {
        x as int
    }

    open spec fn decreasing() -> bool {
        false
    }

    proof fn lemma_shape() {
    }

    proof fn lemma_lanes_len(v: [i64; 2]) {
    }

    proof fn lemma_key_order(a: i64, b: i64) {
    }

    fn lane_count() -> (l: usize) {
        get_lane_size::<SSE>(64)
    }

    fn index_limit() -> (m: usize) {
        let limit: u64 = i64::MAX as u64;
        if limit > usize::MAX as u64 {
            usize::MAX
        } else {
            limit as usize
        }
    }

    fn initial_index() -> (v: [i64; 2]) {
        lanes_iota()
    }

    fn index_increment() -> (v: [i64; 2]) {
        lanes_splat(2)
    }

    fn load(data: &[i64], at: usize) -> (v: [i64; 2]) {
        lanes_load(data, at)
    }

    fn add(a: [i64; 2], b: [i64; 2]) -> (v: [i64; 2]) {
        lanes_add(a, b)
    }

    fn mask_gt(a: [i64; 2], b: [i64; 2]) -> (m: [bool; 2]) {
        lanes_gt(a, b)
    }

    fn mask_lt(a: [i64; 2], b: [i64; 2]) -> (m: [bool; 2]) {
        lanes_gt(b, a)
    }

    fn blendv(a: [i64; 2], b: [i64; 2], mask: [bool; 2]) -> (v: [i64; 2]) {
        lanes_blend(a, b, mask)
    }

    fn horiz_min(index: [i64; 2], value: [i64; 2]) -> (r: (usize, i64)) {
        let (min_index, min_value) = min_index_value(&index, &value);
        (min_index.to_index(), min_value)
    }

    fn horiz_max(index: [i64; 2], value: [i64; 2]) -> (r: (usize, i64)) {
        let (max_index, max_value) = max_index_value(&index, &value);
        (max_index.to_index(), max_value)
    }

    fn get_min_max_index_value(
        index_low: [i64; 2],
        values_low: [i64; 2],
        index_high: [i64; 2],
        values_high: [i64; 2],
    ) -> (r: (usize, i64, usize, i64)) {
        let (min_index, min_value) = Self::horiz_min(index_low, values_low);
        let (max_index, max_value) = Self::horiz_max(index_high, values_high);
        (min_index, min_value, max_index, max_value)
    }
}

impl SIMDArgMinMax<i64> for SSE {
    fn argminmax(data: &[i64]) -> (r: (usize, usize)) {
        argminmax_generic::<i64, SSE>(data)
    }
}

/// Eight lanes. A comparison gives a word with one bit for each lane.
impl SIMDOps<i64> for AVX512 {
    type Vector = [i64; 8];

    type Mask = u64;

    open spec fn lane_size() -> int {
        8
    }

    open spec fn max_index() -> int {
        i64::MAX as int
    }

    open spec fn lane_min() -> int {
        i64::MIN as int
    }

    open spec fn lanes(v: [i64; 8]) -> Seq<int> {
        lane_vals(v)
    }

    open spec fn flags(m: u64) -> Seq<bool> {
        Seq::new(8, |k: int| bit_set(m, k))
    }

    open spec fn key(x: i64) -> int {
        x as int
    }

    open spec fn decreasing() -> bool {
        false
    }

    proof fn lemma_shape() {
    }

    proof fn lemma_lanes_len(v: [i64; 8]) {
    }

    proof fn lemma_key_order(a: i64, b: i64) {
    }

    fn lane_count() -> (l: usize) {
        get_lane_size::<AVX512>(64)
    }

    fn index_limit() -> (m: usize) {
        let limit: u64 = i64::MAX as u64;
        if limit > usize::MAX as u64 {
            usize::MAX
        } else {
            limit as usize
        }
    }

    fn initial_index() -> (v: [i64; 8]) {
        lanes_iota()
    }

    fn index_increment() -> (v: [i64; 8]) {
        lanes_splat(8)
    }

    fn load(data: &[i64], at: usize) -> (v: [i64; 8]) {
        lanes_load(data, at)
    }

    fn add(a: [i64; 8], b: [i64; 8]) -> (v: [i64; 8]) {
        lanes_add(a, b)
    }

    fn mask_gt(a: [i64; 8], b: [i64; 8]) -> (m: u64) {
        flags_to_bits(lanes_gt(a, b))
    }

    fn mask_lt(a: [i64; 8], b: [i64; 8]) -> (m: u64) {
        flags_to_bits(lanes_lt(a, b))
    }

    fn blendv(a: [i64; 8], b: [i64; 8], mask: u64) -> (v: [i64; 8]) {
        lanes_blend(a, b, bits_to_flags(mask))
    }

    fn horiz_min(index: [i64; 8], value: [i64; 8]) -> (r: (usize, i64)) {
        let (min_index, min_value) = min_index_value(&index, &value);
        (min_index.to_index(), min_value)
    }

    fn horiz_max(index: [i64; 8], value: [i64; 8]) -> (r: (usize, i64)) {
        let (max_index, max_value) = max_index_value(&index, &value);
        (max_index.to_index(), max_value)
    }

    fn get_min_max_index_value(
        index_low: [i64; 8],
        values_low: [i64; 8],
        index_high: [i64; 8],
        values_high: [i64; 8],
    ) -> (r: (usize, i64, usize, i64)) {
        let (min_index, min_value) = Self::horiz_min(index_low, values_low);
        let (max_index, max_value) = Self::horiz_max(index_high, values_high);
        (min_index, min_value, max_index, max_value)
    }
}

impl SIMDArgMinMax<i64> for AVX512 {
    fn argminmax(data: &[i64]) -> (r: (usize, usize)) {
        argminmax_generic::<i64, AVX512>(data)
    }
}

} // verus!
