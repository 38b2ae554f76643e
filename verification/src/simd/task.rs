//! What stands round a kernel: the input is cut into the part that fills whole
//! registers and the tail, and the results of the two are merged.
use crate::element::{ords, Element};
use crate::extrema::{is_argmax, is_argmin};
use crate::scalar::scalar_argminmax;
use crate::simd::generic::{overflow_safe_core_argminmax, whole_chunks, SIMDOps};
use vstd::prelude::*;

verus! {

/// Where `split_array` cuts an input of `n` elements: behind the last whole
/// register.
pub open spec fn split_point(n: int, lane_size: int) -> int {
    n - n % lane_size
}

/// Cuts `arr` into the part for the kernel and the tail for the scalar pass.
///
/// The first part is the longest prefix that is a whole number of registers,
/// and the tail is what is left. An input shorter than one register is all
/// tail, and a part that would be empty is left out, but for the tail of an
/// empty input.
pub fn split_array<'a, T>(arr: &'a [T], lane_size: usize) -> (r: (
    Option<&'a [T]>,
    Option<&'a [T]>,
))
    requires
        lane_size > 0,
    ensures
        ({
            let n = arr@.len() as int;
            let m = split_point(n, lane_size as int);
            &&& 0 <= m <= n
            &&& m > 0 ==> m >= lane_size
            &&& r.0 is Some <==> m > 0
            &&& r.1 is Some <==> m < n || n == 0
            &&& r.0 matches Some(sim) ==> sim@ == arr@.subrange(0, m)
            &&& r.1 matches Some(rem) ==> rem@ == arr@.subrange(m, n)
            &&& whole_chunks(m, lane_size as int)
        }),
{
    let n: usize = arr.len();
    let m: usize = crate::simd::generic::find_largest_lower_multiple_of_lane_size(n, lane_size);
    proof {
        if n < lane_size {
            vstd::arithmetic::div_mod::lemma_small_mod(n as nat, lane_size as nat);
        }
    }
    if m == 0 {
        // Not one whole register: the scalar pass takes it all.
        proof {
            assert(arr@.subrange(0, n as int) == arr@);
        }
        return (None, Some(arr));
    }
    let left: &[T] = vstd::slice::slice_subrange(arr, 0, m);
    if m == n {
        (Some(left), None)
    } else {
        let right: &[T] = vstd::slice::slice_subrange(arr, m, n);
        (Some(left), Some(right))
    }
}

/// Merges the result of the scalar pass over the tail with that of the
/// kernel, both as `(argmin, min, argmax, max)` with positions in the whole
/// input. The result with the better value wins; on equal values the smaller
/// position does.
pub fn find_final_index_minmax<T: Element>(
    remainder_result: (usize, T, usize, T),
    simd_result: (usize, T, usize, T),
) -> (r: (usize, usize))
    ensures
        r.0 == if simd_result.1.ord() < remainder_result.1.ord() {
            simd_result.0
        } else if remainder_result.1.ord() < simd_result.1.ord() {
            remainder_result.0
        } else if simd_result.0 <= remainder_result.0 {
            simd_result.0
        } else {
            remainder_result.0
        },
        r.1 == if simd_result.3.ord() > remainder_result.3.ord() {
            simd_result.2
        } else if remainder_result.3.ord() > simd_result.3.ord() {
            remainder_result.2
        } else if simd_result.2 <= remainder_result.2 {
            simd_result.2
        } else {
            remainder_result.2
        },
{
    let min_result: usize = if simd_result.1.less(remainder_result.1) {
        simd_result.0
    } else if remainder_result.1.less(simd_result.1) {
        remainder_result.0
    } else if simd_result.0 <= remainder_result.0 {
        simd_result.0
    } else {
        remainder_result.0
    };
    let max_result: usize = if remainder_result.3.less(simd_result.3) {
        simd_result.2
    } else if simd_result.3.less(remainder_result.3) {
        remainder_result.2
    } else if simd_result.2 <= remainder_result.2 {
        simd_result.2
    } else {
        remainder_result.2
    };
    (min_result, max_result)
}

/// The whole of a kernel: the registers' part by the traversal, the tail by
/// the scalar pass, and the merge of the two.
pub fn argminmax_generic<T: Element, S: SIMDOps<T>>(arr: &[T]) -> (r: (usize, usize))
    requires
        arr@.len() > 0,
    ensures
        is_argmin(ords(arr@), r.0 as int),
        is_argmax(ords(arr@), r.1 as int),
{
    proof {
        S::lemma_shape();
    }
    let ghost keys = ords(arr@);
    let total: usize = arr.len();
    let ghost n = total as int;
    match split_array(arr, S::lane_count()) {
        (Some(sim), Some(rem)) => {
            let sim_result = overflow_safe_core_argminmax::<T, S>(sim);
            let (rem_min_index, rem_max_index) = scalar_argminmax(rem);
            assert(sim@.len() + rem@.len() == total);
            let rem_result = (
                rem_min_index + sim.len(),
                rem[rem_min_index],
                rem_max_index + sim.len(),
                rem[rem_max_index],
            );
            proof {
                let m = sim@.len() as int;
                crate::element::lemma_ords_of_window(arr@, 0, m);
                crate::element::lemma_ords_of_window(arr@, m, n);
                crate::extrema::lemma_first_min_of_window(keys, 0, m, sim_result.0 as int);
                crate::extrema::lemma_first_max_of_window(keys, 0, m, sim_result.2 as int);
                crate::extrema::lemma_first_min_of_window(keys, m, n, rem_min_index as int);
                crate::extrema::lemma_first_max_of_window(keys, m, n, rem_max_index as int);
                crate::extrema::lemma_first_min_join(
                    keys,
                    0,
                    m,
                    n,
                    sim_result.0 as int,
                    m + rem_min_index,
                );
                crate::extrema::lemma_first_max_join(
                    keys,
                    0,
                    m,
                    n,
                    sim_result.2 as int,
                    m + rem_max_index,
                );
                assert(keys[sim_result.0 as int] == sim_result.1.ord());
                assert(keys[sim_result.2 as int] == sim_result.3.ord());
                assert(keys[m + rem_min_index] == rem_result.1.ord());
                assert(keys[m + rem_max_index] == rem_result.3.ord());
            }
            find_final_index_minmax(rem_result, sim_result)
        },
        (Some(sim), None) => {
            let sim_result = overflow_safe_core_argminmax::<T, S>(sim);
            proof {
                assert(sim@ == arr@);
            }
            (sim_result.0, sim_result.2)
        },
        (None, Some(rem)) => {
            proof {
                assert(rem@ == arr@);
            }
            scalar_argminmax(rem)
        },
        (None, None) => {
            proof {
                assert(false);
            }
            (0, 0)
        },
    }
}

} // verus!
