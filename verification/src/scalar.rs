//! The scalar fallback: one plain pass over the elements.
//!
//! It has the contract of every kernel, serves the tails that are shorter
//! than a register, and is what the kernels are compared with.
use crate::element::{ords, Element};
use crate::extrema::{is_argmax, is_argmin};
use crate::simd::config::SCALAR;
use vstd::prelude::*;

verus! {

/// Returns the positions of the first smallest and of the first largest
/// element of `data`.
pub fn scalar_argminmax<T: Element>(data: &[T]) -> (r: (usize, usize))
    requires
        data@.len() > 0,
    ensures
        is_argmin(ords(data@), r.0 as int),
        is_argmax(ords(data@), r.1 as int),
{
    let ghost keys = ords(data@);
    let mut low_index: usize = 0;
    let mut high_index: usize = 0;
    let mut low: T = data[0];
    let mut high: T = data[0];
    let mut i: usize = 0;
    while i < data.len()
        invariant
            keys == ords(data@),
            i <= data@.len(),
            data@.len() > 0,
            low_index < data@.len(),
            high_index < data@.len(),
            low == data@[low_index as int],
            high == data@[high_index as int],
            low_index <= i,
            high_index <= i,
            forall|j: int| 0 <= j < i ==> keys[low_index as int] <= #[trigger] keys[j],
            forall|j: int| 0 <= j < low_index ==> keys[low_index as int] < #[trigger] keys[j],
            forall|j: int| 0 <= j < i ==> keys[high_index as int] >= #[trigger] keys[j],
            forall|j: int| 0 <= j < high_index ==> keys[high_index as int] > #[trigger] keys[j],
        decreases data@.len() - i,
    {
        let item: T = data[i];
        assert(keys[i as int] == item.ord());
        assert(keys[low_index as int] == low.ord());
        assert(keys[high_index as int] == high.ord());
        if item.less(low) {
            low = item;
            low_index = i;
        } else if high.less(item) {
            high = item;
            high_index = i;
        }
        i += 1;
    }
    (low_index, high_index)
}


impl SCALAR {
    /// Returns `(argmin, argmax)` of `data` by the scalar pass, as the
    /// kernels of the instruction families do by theirs.
    pub fn argminmax<T: Element>(data: &[T]) -> (r: (usize, usize))
        requires
            data@.len() > 0,
        ensures
            is_argmin(ords(data@), r.0 as int),
            is_argmax(ords(data@), r.1 as int),
    {
        scalar_argminmax(data)
    }
}

} // verus!
