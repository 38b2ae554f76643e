//! The capability set of a specialization and the traversal written against it.
//!
//! The traversal is written once. A specialization is one instruction family
//! together with one element type: it fixes the register, the number of lanes
//! and the mask, and supplies the primitives.
use crate::element::{ords, Element};
use crate::extrema::{first_max_in, first_min_in, is_argmax, is_argmin};
use crate::lane::{lanes_first_max, lanes_first_min, positions_up_to, wrapped};
use vstd::prelude::*;

verus! {

/// The primitives of one specialization: instruction family `Self`, element
/// type `T`.
///
/// Every element is loaded as its ordinal, a signed or unsigned integer that
/// fits one lane. The order of the ordinals is the order of the elements, or
/// its exact reverse where `decreasing()` holds.
pub trait SIMDOps<T: Element> {
    /// A register of `lane_size()` lanes.
    type Vector: Copy;

    /// The result of a lane-wise comparison: one flag for each lane.
    type Mask: Copy;

    /// The number of lanes of a register.
    spec fn lane_size() -> int;

    /// The largest position that an index lane can hold.
    spec fn max_index() -> int;

    /// The smallest integer that a lane can hold.
    spec fn lane_min() -> int;

    /// The integers in the lanes of `v`, lane 0 first.
    spec fn lanes(v: Self::Vector) -> Seq<int>;

    /// The flags of `m`, that of lane 0 first.
    spec fn flags(m: Self::Mask) -> Seq<bool>;

    /// The ordinal as which `x` is loaded.
    spec fn key(x: T) -> int;

    /// Whether larger elements have smaller ordinals.
    spec fn decreasing() -> bool;

    /// A register has at least one lane, an index lane can count that far, and
    /// it can hold 0.
    proof fn lemma_shape()
        ensures
            0 < Self::lane_size() <= Self::max_index(),
            Self::lane_min() <= 0,
    ;

    /// A register has `lane_size()` lanes.
    proof fn lemma_lanes_len(v: Self::Vector)
        ensures
            Self::lanes(v).len() == Self::lane_size(),
    ;

    /// The ordinals are ordered as the elements are, or exactly the other way
    /// round.
    proof fn lemma_key_order(a: T, b: T)
        ensures
            (Self::key(a) < Self::key(b)) == (if Self::decreasing() {
                b.ord() < a.ord()
            } else {
                a.ord() < b.ord()
            }),
    ;

    /// The number of lanes of a register.
    fn lane_count() -> (l: usize)
        ensures
            l == Self::lane_size(),
    ;

    /// The largest position that an index lane can hold, as far as the
    /// machine's word can express it.
    fn index_limit() -> (m: usize)
        ensures
            m == if Self::max_index() <= usize::MAX {
                Self::max_index()
            } else {
                usize::MAX as int
            },
    ;

    /// The index register of the first chunk: `[0, 1, .., L - 1]`.
    fn initial_index() -> (v: Self::Vector)
        ensures
            forall|k: int| 0 <= k < Self::lane_size() ==> #[trigger] Self::lanes(v)[k] == k,
    ;

    /// What is added to the index register for each further chunk:
    /// `[L, L, .., L]`.
    fn index_increment() -> (v: Self::Vector)
        ensures
            forall|k: int|
                0 <= k < Self::lane_size() ==> #[trigger] Self::lanes(v)[k] == Self::lane_size(),
    ;

    /// Reads the chunk of `data` that starts at `at`, each element as its
    /// ordinal.
    fn load(data: &[T], at: usize) -> (v: Self::Vector)
        requires
            at + Self::lane_size() <= data@.len(),
        ensures
            forall|k: int|
                0 <= k < Self::lane_size() ==> #[trigger] Self::lanes(v)[k] == Self::key(
                    data@[at + k],
                ),
    ;

    /// Lane-wise sum, wrapped at the bounds of a lane.
    fn add(a: Self::Vector, b: Self::Vector) -> (v: Self::Vector)
        ensures
            forall|k: int|
                0 <= k < Self::lane_size() ==> #[trigger] Self::lanes(v)[k] == wrapped(
                    Self::lanes(a)[k] + Self::lanes(b)[k],
                    Self::lane_min(),
                    Self::max_index(),
                ),
    ;

    /// Lane-wise `a > b`.
    fn mask_gt(a: Self::Vector, b: Self::Vector) -> (m: Self::Mask)
        ensures
            forall|k: int|
                0 <= k < Self::lane_size() ==> #[trigger] Self::flags(m)[k] == (Self::lanes(a)[k]
                    > Self::lanes(b)[k]),
    ;

    /// Lane-wise `a < b`.
    fn mask_lt(a: Self::Vector, b: Self::Vector) -> (m: Self::Mask)
        ensures
            forall|k: int|
                0 <= k < Self::lane_size() ==> #[trigger] Self::flags(m)[k] == (Self::lanes(a)[k]
                    < Self::lanes(b)[k]),
    ;

    /// Lane-wise select: the lane of `b` where the flag is set, else that of
    /// `a`.
    fn blendv(a: Self::Vector, b: Self::Vector, mask: Self::Mask) -> (v: Self::Vector)
        ensures
            forall|k: int|
                0 <= k < Self::lane_size() ==> #[trigger] Self::lanes(v)[k] == (if Self::flags(
                    mask,
                )[k] {
                    Self::lanes(b)[k]
                } else {
                    Self::lanes(a)[k]
                }),
    ;

    /// Reduces a pair of registers to the smallest ordinal and the smallest
    /// index that goes with it, and decodes the ordinal.
    fn horiz_min(index: Self::Vector, value: Self::Vector) -> (r: (usize, T))
        requires
            positions_up_to(Self::lanes(index), Self::max_index()),
        ensures
            lanes_first_min(
                Self::lanes(index),
                Self::lanes(value),
                r.0 as int,
                Self::key(r.1),
            ),
    ;

    /// Reduces a pair of registers to the largest ordinal and the smallest
    /// index that goes with it, and decodes the ordinal.
    fn horiz_max(index: Self::Vector, value: Self::Vector) -> (r: (usize, T))
        requires
            positions_up_to(Self::lanes(index), Self::max_index()),
        ensures
            lanes_first_max(
                Self::lanes(index),
                Self::lanes(value),
                r.0 as int,
                Self::key(r.1),
            ),
    ;

    /// Reduces the four running registers to position and value of the
    /// smallest element and position and value of the largest, in this order.
    /// Where the ordinals decrease, the smallest element is the one with the
    /// largest ordinal.
    fn get_min_max_index_value(
        index_low: Self::Vector,
        values_low: Self::Vector,
        index_high: Self::Vector,
        values_high: Self::Vector,
    ) -> (r: (usize, T, usize, T))
        requires
            positions_up_to(Self::lanes(index_low), Self::max_index()),
            positions_up_to(Self::lanes(index_high), Self::max_index()),
        ensures
            !Self::decreasing() ==> lanes_first_min(
                Self::lanes(index_low),
                Self::lanes(values_low),
                r.0 as int,
                Self::key(r.1),
            ) && lanes_first_max(
                Self::lanes(index_high),
                Self::lanes(values_high),
                r.2 as int,
                Self::key(r.3),
            ),
            Self::decreasing() ==> lanes_first_max(
                Self::lanes(index_high),
                Self::lanes(values_high),
                r.0 as int,
                Self::key(r.1),
            ) && lanes_first_min(
                Self::lanes(index_low),
                Self::lanes(values_low),
                r.2 as int,
                Self::key(r.3),
            ),
    ;
}

/// The ordinals as which the specialization loads the elements of `s`.
pub open spec fn keys_of<T: Element, S: SIMDOps<T> + ?Sized>(s: Seq<T>) -> Seq<int> {
    Seq::new(s.len(), |p: int| S::key(s[p]))
}

/// `n` is a whole number of registers of `l` lanes.
pub open spec fn whole_chunks(n: int, l: int) -> bool {
    l > 0 && n % l == 0
}

/// After a whole number of chunks that is not the last, one more chunk fits.
pub proof fn lemma_next_chunk(i: int, n: int, l: int)
    requires
        whole_chunks(i, l),
        whole_chunks(n, l),
        0 <= i < n,
    ensures
        i + l <= n,
        whole_chunks(i + l, l),
{
    vstd::arithmetic::div_mod::lemma_fundamental_div_mod(i, l);
    vstd::arithmetic::div_mod::lemma_fundamental_div_mod(n, l);
    let a = i / l;
    let b = n / l;
    assert(i == l * a);
    assert(n == l * b);
    assert(a < b) by (nonlinear_arith)
        requires
            l * a < l * b,
            l > 0,
    ;
    assert(l * (a + 1) <= l * b) by (nonlinear_arith)
        requires
            a + 1 <= b,
            l > 0,
    ;
    assert(l * (a + 1) == l * a + l) by (nonlinear_arith);
    vstd::arithmetic::div_mod::lemma_mod_multiples_basic(a + 1, l);
    assert((a + 1) * l == l * (a + 1)) by (nonlinear_arith);
}

/// What the running registers of one direction hold after the positions
/// `0..n` were visited. Every lane holds a visited position and the ordinal
/// found there. Every visited position `p` has a lane `owner[p]` whose ordinal
/// is at least as small; where the two are equal, the lane's position is not
/// after `p`.
pub open spec fn lanes_track_min(
    keys: Seq<int>,
    n: int,
    owner: Seq<int>,
    index: Seq<int>,
    value: Seq<int>,
) -> bool {
    &&& 0 <= n <= keys.len()
    &&& owner.len() == n
    &&& index.len() == value.len()
    &&& forall|k: int|
        0 <= k < index.len() ==> 0 <= #[trigger] index[k] < n && keys[index[k]] == value[k]
    &&& forall|p: int|
        0 <= p < n ==> {
            &&& 0 <= #[trigger] owner[p] < index.len()
            &&& value[owner[p]] <= keys[p]
            &&& value[owner[p]] == keys[p] ==> index[owner[p]] <= p
        }
}

/// As `lanes_track_min`, for the largest ordinals.
pub open spec fn lanes_track_max(
    keys: Seq<int>,
    n: int,
    owner: Seq<int>,
    index: Seq<int>,
    value: Seq<int>,
) -> bool {
    &&& 0 <= n <= keys.len()
    &&& owner.len() == n
    &&& index.len() == value.len()
    &&& forall|k: int|
        0 <= k < index.len() ==> 0 <= #[trigger] index[k] < n && keys[index[k]] == value[k]
    &&& forall|p: int|
        0 <= p < n ==> {
            &&& 0 <= #[trigger] owner[p] < index.len()
            &&& value[owner[p]] >= keys[p]
            &&& value[owner[p]] == keys[p] ==> index[owner[p]] <= p
        }
}

/// The horizontal reduction of registers that track the minimum gives the
/// first minimum of all visited positions.
pub proof fn lemma_reduced_min(
    keys: Seq<int>,
    n: int,
    owner: Seq<int>,
    index: Seq<int>,
    value: Seq<int>,
    i: int,
    v: int,
)
    requires
        lanes_track_min(keys, n, owner, index, value),
        lanes_first_min(index, value, i, v),
    ensures
        first_min_in(keys, 0, n, i),
        keys[i] == v,
{
    let k0 = choose|k: int| 0 <= k < value.len() && #[trigger] value[k] == v && index[k] == i;
    assert(0 <= index[k0] < n && keys[index[k0]] == value[k0]);
    assert forall|p: int| 0 <= p < n implies keys[i] <= #[trigger] keys[p] by {
        let k = owner[p];
        assert(v <= value[k]);
    }
    assert forall|p: int| 0 <= p < i implies keys[i] < #[trigger] keys[p] by {
        let k = owner[p];
        assert(v <= value[k]);
        if keys[p] <= v {
            assert(value[k] == v);
            assert(i <= index[k]);
        }
    }
}

/// The horizontal reduction of registers that track the maximum gives the
/// first maximum of all visited positions.
pub proof fn lemma_reduced_max(
    keys: Seq<int>,
    n: int,
    owner: Seq<int>,
    index: Seq<int>,
    value: Seq<int>,
    i: int,
    v: int,
)
    requires
        lanes_track_max(keys, n, owner, index, value),
        lanes_first_max(index, value, i, v),
    ensures
        first_max_in(keys, 0, n, i),
        keys[i] == v,
{
    let k0 = choose|k: int| 0 <= k < value.len() && #[trigger] value[k] == v && index[k] == i;
    assert(0 <= index[k0] < n && keys[index[k0]] == value[k0]);
    assert forall|p: int| 0 <= p < n implies keys[i] >= #[trigger] keys[p] by {
        let k = owner[p];
        assert(v >= value[k]);
    }
    assert forall|p: int| 0 <= p < i implies keys[i] > #[trigger] keys[p] by {
        let k = owner[p];
        assert(v >= value[k]);
        if keys[p] >= v {
            assert(value[k] == v);
            assert(i <= index[k]);
        }
    }
}

/// One step of the traversal keeps the registers on track: the chunk at
/// `n..n + l` is compared lane by lane with the running minimum, and a lane
/// takes the new ordinal and its position where the new ordinal is strictly
/// smaller.
pub proof fn lemma_step_min(
    keys: Seq<int>,
    n: int,
    owner: Seq<int>,
    index: Seq<int>,
    value: Seq<int>,
    new_index: Seq<int>,
    new_value: Seq<int>,
    index2: Seq<int>,
    value2: Seq<int>,
)
    requires
        lanes_track_min(keys, n, owner, index, value),
        n + index.len() <= keys.len(),
        new_index.len() == index.len(),
        new_value.len() == index.len(),
        index2.len() == index.len(),
        value2.len() == index.len(),
        forall|k: int|
            0 <= k < index.len() ==> #[trigger] new_index[k] == n + k && new_value[k] == keys[n
                + k],
        forall|k: int|
            0 <= k < index.len() ==> #[trigger] value2[k] == (if new_value[k] < value[k] {
                new_value[k]
            } else {
                value[k]
            }) && index2[k] == (if new_value[k] < value[k] {
                new_index[k]
            } else {
                index[k]
            }),
    ensures
        lanes_track_min(
            keys,
            n + index.len(),
            owner + Seq::new(index.len(), |k: int| k),
            index2,
            value2,
        ),
{
    let l = index.len() as int;
    let owner2 = owner + Seq::new(index.len(), |k: int| k);
    assert forall|k: int| 0 <= k < l implies 0 <= #[trigger] index2[k] < n + l && keys[index2[k]]
        == value2[k] by {
        assert(value2[k] == (if new_value[k] < value[k] {
            new_value[k]
        } else {
            value[k]
        }));
        assert(new_index[k] == n + k);
        assert(0 <= index[k] < n);
    }
    assert forall|p: int| 0 <= p < n + l implies {
        &&& 0 <= #[trigger] owner2[p] < l
        &&& value2[owner2[p]] <= keys[p]
        &&& value2[owner2[p]] == keys[p] ==> index2[owner2[p]] <= p
    } by {
        if p < n {
            let k = owner[p];
            assert(owner2[p] == k);
            assert(value2[k] == (if new_value[k] < value[k] {
                new_value[k]
            } else {
                value[k]
            }));
        } else {
            let k = p - n;
            assert(owner2[p] == k);
            assert(value2[k] == (if new_value[k] < value[k] {
                new_value[k]
            } else {
                value[k]
            }));
            assert(new_index[k] == n + k);
            assert(0 <= index[k] < n);
        }
    }
}

/// As `lemma_step_min`, for the running maximum.
pub proof fn lemma_step_max(
    keys: Seq<int>,
    n: int,
    owner: Seq<int>,
    index: Seq<int>,
    value: Seq<int>,
    new_index: Seq<int>,
    new_value: Seq<int>,
    index2: Seq<int>,
    value2: Seq<int>,
)
    requires
        lanes_track_max(keys, n, owner, index, value),
        n + index.len() <= keys.len(),
        new_index.len() == index.len(),
        new_value.len() == index.len(),
        index2.len() == index.len(),
        value2.len() == index.len(),
        forall|k: int|
            0 <= k < index.len() ==> #[trigger] new_index[k] == n + k && new_value[k] == keys[n
                + k],
        forall|k: int|
            0 <= k < index.len() ==> #[trigger] value2[k] == (if new_value[k] > value[k] {
                new_value[k]
            } else {
                value[k]
            }) && index2[k] == (if new_value[k] > value[k] {
                new_index[k]
            } else {
                index[k]
            }),
    ensures
        lanes_track_max(
            keys,
            n + index.len(),
            owner + Seq::new(index.len(), |k: int| k),
            index2,
            value2,
        ),
{
    let l = index.len() as int;
    let owner2 = owner + Seq::new(index.len(), |k: int| k);
    assert forall|k: int| 0 <= k < l implies 0 <= #[trigger] index2[k] < n + l && keys[index2[k]]
        == value2[k] by {
        assert(value2[k] == (if new_value[k] > value[k] {
            new_value[k]
        } else {
            value[k]
        }));
        assert(new_index[k] == n + k);
        assert(0 <= index[k] < n);
    }
    assert forall|p: int| 0 <= p < n + l implies {
        &&& 0 <= #[trigger] owner2[p] < l
        &&& value2[owner2[p]] >= keys[p]
        &&& value2[owner2[p]] == keys[p] ==> index2[owner2[p]] <= p
    } by {
        if p < n {
            let k = owner[p];
            assert(owner2[p] == k);
            assert(value2[k] == (if new_value[k] > value[k] {
                new_value[k]
            } else {
                value[k]
            }));
        } else {
            let k = p - n;
            assert(owner2[p] == k);
            assert(value2[k] == (if new_value[k] > value[k] {
                new_value[k]
            } else {
                value[k]
            }));
            assert(new_index[k] == n + k);
            assert(0 <= index[k] < n);
        }
    }
}

/// A first minimum or maximum by ordinal is the argmin or argmax by the order
/// of the elements: the same one where the ordinals increase, the opposite one
/// where they decrease.
pub proof fn lemma_keys_to_ords<T: Element, S: SIMDOps<T>>(s: Seq<T>, i: int)
    ensures
        !S::decreasing() && first_min_in(keys_of::<T, S>(s), 0, s.len() as int, i) ==> is_argmin(
            ords(s),
            i,
        ),
        !S::decreasing() && first_max_in(keys_of::<T, S>(s), 0, s.len() as int, i) ==> is_argmax(
            ords(s),
            i,
        ),
        S::decreasing() && first_max_in(keys_of::<T, S>(s), 0, s.len() as int, i) ==> is_argmin(
            ords(s),
            i,
        ),
        S::decreasing() && first_min_in(keys_of::<T, S>(s), 0, s.len() as int, i) ==> is_argmax(
            ords(s),
            i,
        ),
{
    let keys = keys_of::<T, S>(s);
    let o = ords(s);
    let n = s.len() as int;
    if 0 <= i < n {
        assert forall|j: int| 0 <= j < n implies (keys[i] < #[trigger] keys[j]) == (
        if S::decreasing() {
            o[j] < o[i]
        } else {
            o[i] < o[j]
        }) && (keys[j] < keys[i]) == (if S::decreasing() {
            o[i] < o[j]
        } else {
            o[j] < o[i]
        }) by {
            S::lemma_key_order(s[i], s[j]);
            S::lemma_key_order(s[j], s[i]);
        }
        if !S::decreasing() && first_min_in(keys, 0, n, i) {
            assert forall|j: int| 0 <= j < n implies o[i] <= #[trigger] o[j] by {
                assert(keys[i] <= keys[j]);
            }
            assert forall|j: int| 0 <= j < i implies o[i] < #[trigger] o[j] by {
                assert(keys[i] < keys[j]);
            }
        }
        if !S::decreasing() && first_max_in(keys, 0, n, i) {
            assert forall|j: int| 0 <= j < n implies o[i] >= #[trigger] o[j] by {
                assert(keys[i] >= keys[j]);
            }
            assert forall|j: int| 0 <= j < i implies o[i] > #[trigger] o[j] by {
                assert(keys[i] > keys[j]);
            }
        }
        if S::decreasing() && first_max_in(keys, 0, n, i) {
            assert forall|j: int| 0 <= j < n implies o[i] <= #[trigger] o[j] by {
                assert(keys[i] >= keys[j]);
            }
            assert forall|j: int| 0 <= j < i implies o[i] < #[trigger] o[j] by {
                assert(keys[i] > keys[j]);
            }
        }
        if S::decreasing() && first_min_in(keys, 0, n, i) {
            assert forall|j: int| 0 <= j < n implies o[i] >= #[trigger] o[j] by {
                assert(keys[i] <= keys[j]);
            }
            assert forall|j: int| 0 <= j < i implies o[i] > #[trigger] o[j] by {
                assert(keys[i] < keys[j]);
            }
        }
    }
}

/// Elements with the same ordinal are the same element.
pub proof fn lemma_key_injective<T: Element, S: SIMDOps<T>>(a: T, b: T)
    requires
        S::key(a) == S::key(b),
    ensures
        a == b,
{
    S::lemma_key_order(a, b);
    S::lemma_key_order(b, a);
    T::lemma_ord_injective(a, b);
}

/// The traversal over one segment: a whole number of chunks whose positions
/// all fit an index lane.
///
/// It keeps, lane by lane, the smallest and the largest ordinal seen so far
/// with the position of its first occurrence, and reduces the four registers
/// at the end. It returns position and value of the first smallest element
/// and position and value of the first largest.
pub fn core_argminmax<T: Element, S: SIMDOps<T>>(arr: &[T]) -> (r: (usize, T, usize, T))
    requires
        arr@.len() >= S::lane_size(),
        whole_chunks(arr@.len() as int, S::lane_size()),
        arr@.len() <= S::max_index(),
    ensures
        is_argmin(ords(arr@), r.0 as int),
        r.1 == arr@[r.0 as int],
        is_argmax(ords(arr@), r.2 as int),
        r.3 == arr@[r.2 as int],
{
    proof {
        S::lemma_shape();
    }
    let lane_size: usize = S::lane_count();
    let n: usize = arr.len();
    let ghost keys: Seq<int> = keys_of::<T, S>(arr@);

    let mut new_index: S::Vector = S::initial_index();
    let mut index_low: S::Vector = new_index;
    let mut index_high: S::Vector = new_index;
    let increment: S::Vector = S::index_increment();
    let first_values: S::Vector = S::load(arr, 0);
    let mut values_low: S::Vector = first_values;
    let mut values_high: S::Vector = first_values;
    let ghost mut owner: Seq<int> = Seq::new(lane_size as nat, |k: int| k);
    proof {
        S::lemma_lanes_len(new_index);
        S::lemma_lanes_len(first_values);
        S::lemma_lanes_len(increment);
        vstd::arithmetic::div_mod::lemma_mod_self_0(lane_size as int);
    }
    let mut i: usize = lane_size;
    while i < n
        invariant
            lane_size == S::lane_size(),
            0 < S::lane_size() <= S::max_index(),
            S::lane_min() <= 0,
            n == arr@.len(),
            n <= S::max_index(),
            keys == keys_of::<T, S>(arr@),
            lane_size <= i <= n,
            whole_chunks(i as int, S::lane_size()),
            whole_chunks(n as int, S::lane_size()),
            S::lanes(new_index).len() == S::lane_size(),
            S::lanes(increment).len() == S::lane_size(),
            forall|k: int|
                0 <= k < S::lane_size() ==> #[trigger] S::lanes(new_index)[k] == i - S::lane_size()
                    + k,
            forall|k: int|
                0 <= k < S::lane_size() ==> #[trigger] S::lanes(increment)[k] == S::lane_size(),
            S::lanes(index_low).len() == S::lane_size(),
            S::lanes(index_high).len() == S::lane_size(),
            lanes_track_min(keys, i as int, owner, S::lanes(index_low), S::lanes(values_low)),
            lanes_track_max(keys, i as int, owner, S::lanes(index_high), S::lanes(values_high)),
        decreases n - i,
    {
        proof {
            lemma_next_chunk(i as int, n as int, S::lane_size());
        }
        let ghost old_index_low = S::lanes(index_low);
        let ghost old_values_low = S::lanes(values_low);
        let ghost old_index_high = S::lanes(index_high);
        let ghost old_values_high = S::lanes(values_high);

        new_index = S::add(new_index, increment);
        let new_values: S::Vector = S::load(arr, i);

        let lt_mask: S::Mask = S::mask_lt(new_values, values_low);
        let gt_mask: S::Mask = S::mask_gt(new_values, values_high);

        values_low = S::blendv(values_low, new_values, lt_mask);
        values_high = S::blendv(values_high, new_values, gt_mask);
        index_low = S::blendv(index_low, new_index, lt_mask);
        index_high = S::blendv(index_high, new_index, gt_mask);

        proof {
            S::lemma_lanes_len(new_index);
            S::lemma_lanes_len(new_values);
            S::lemma_lanes_len(values_low);
            S::lemma_lanes_len(values_high);
            S::lemma_lanes_len(index_low);
            S::lemma_lanes_len(index_high);
            assert forall|k: int| 0 <= k < S::lane_size() implies #[trigger] S::lanes(
                new_index,
            )[k] == i + k && S::lanes(new_values)[k] == keys[i + k] by {}
            lemma_step_min(
                keys,
                i as int,
                owner,
                old_index_low,
                old_values_low,
                S::lanes(new_index),
                S::lanes(new_values),
                S::lanes(index_low),
                S::lanes(values_low),
            );
            lemma_step_max(
                keys,
                i as int,
                owner,
                old_index_high,
                old_values_high,
                S::lanes(new_index),
                S::lanes(new_values),
                S::lanes(index_high),
                S::lanes(values_high),
            );
            owner = owner + Seq::new(S::lane_size() as nat, |k: int| k);
        }
        i += lane_size;
    }
    let r = S::get_min_max_index_value(index_low, values_low, index_high, values_high);
    proof {
        lemma_keys_to_ords::<T, S>(arr@, r.0 as int);
        lemma_keys_to_ords::<T, S>(arr@, r.2 as int);
        if S::decreasing() {
            lemma_reduced_max(
                keys,
                n as int,
                owner,
                S::lanes(index_high),
                S::lanes(values_high),
                r.0 as int,
                S::key(r.1),
            );
            lemma_reduced_min(
                keys,
                n as int,
                owner,
                S::lanes(index_low),
                S::lanes(values_low),
                r.2 as int,
                S::key(r.3),
            );
        } else {
            lemma_reduced_min(
                keys,
                n as int,
                owner,
                S::lanes(index_low),
                S::lanes(values_low),
                r.0 as int,
                S::key(r.1),
            );
            lemma_reduced_max(
                keys,
                n as int,
                owner,
                S::lanes(index_high),
                S::lanes(values_high),
                r.2 as int,
                S::key(r.3),
            );
        }
        lemma_key_injective::<T, S>(r.1, arr@[r.0 as int]);
        lemma_key_injective::<T, S>(r.3, arr@[r.2 as int]);
    }
    r
}


/// The sum of two whole numbers of chunks is a whole number of chunks.
pub proof fn lemma_chunks_sum(a: int, b: int, l: int)
    requires
        whole_chunks(a, l),
        whole_chunks(b, l),
    ensures
        whole_chunks(a + b, l),
{
    vstd::arithmetic::div_mod::lemma_fundamental_div_mod(a, l);
    vstd::arithmetic::div_mod::lemma_fundamental_div_mod(b, l);
    let x = a / l;
    let y = b / l;
    assert(a + b == (x + y) * l) by (nonlinear_arith)
        requires
            a == l * x,
            b == l * y,
    ;
    vstd::arithmetic::div_mod::lemma_mod_multiples_basic(x + y, l);
}

/// The difference of two whole numbers of chunks is a whole number of chunks,
/// and at least one chunk where it is not zero.
pub proof fn lemma_chunks_diff(a: int, b: int, l: int)
    requires
        whole_chunks(a, l),
        whole_chunks(b, l),
        b <= a,
    ensures
        whole_chunks(a - b, l),
        b < a ==> a - b >= l,
{
    vstd::arithmetic::div_mod::lemma_fundamental_div_mod(a, l);
    vstd::arithmetic::div_mod::lemma_fundamental_div_mod(b, l);
    let x = a / l;
    let y = b / l;
    assert(a - b == (x - y) * l) by (nonlinear_arith)
        requires
            a == l * x,
            b == l * y,
    ;
    vstd::arithmetic::div_mod::lemma_mod_multiples_basic(x - y, l);
    if b < a {
        assert(x - y >= 1) by (nonlinear_arith)
            requires
                (x - y) * l > 0,
                l > 0,
        ;
        assert((x - y) * l >= l) by (nonlinear_arith)
            requires
                x - y >= 1,
                l > 0,
        ;
    }
}

/// The largest whole number of chunks of `lane_size` lanes that is not above
/// `n`.
pub fn find_largest_lower_multiple_of_lane_size(n: usize, lane_size: usize) -> (m: usize)
    requires
        lane_size > 0,
    ensures
        m == n - n % lane_size,
        whole_chunks(m as int, lane_size as int),
        n >= lane_size ==> m >= lane_size,
{
    proof {
        vstd::arithmetic::div_mod::lemma_mod_decreases(n as nat, lane_size as nat);
    }
    let m: usize = n - n % lane_size;
    proof {
        let l = lane_size as int;
        let nn = n as int;
        let mm = m as int;
        vstd::arithmetic::div_mod::lemma_fundamental_div_mod(nn, l);
        let q = nn / l;
        let rest = nn % l;
        assert(mm == q * l) by (nonlinear_arith)
            requires
                nn == l * q + rest,
                mm == nn - rest,
        ;
        vstd::arithmetic::div_mod::lemma_mod_multiples_basic(q, l);
        if nn >= l {
            assert(q >= 1) by (nonlinear_arith)
                requires
                    nn == l * q + rest,
                    0 <= rest < l,
                    nn >= l,
                    l > 0,
            ;
            assert(q * l >= l) by (nonlinear_arith)
                requires
                    q >= 1,
                    l > 0,
            ;
        }
    }
    m
}

/// The traversal over a whole number of chunks of any length.
///
/// An index lane is as wide as an element, so it cannot count beyond
/// `max_index()`. A longer input is therefore cut into segments of the largest
/// whole number of chunks below that limit. Each segment is traversed by
/// itself, and its extremes replace the running ones only where they are
/// strictly better, so that the earlier position stays on a tie.
pub fn overflow_safe_core_argminmax<T: Element, S: SIMDOps<T>>(arr: &[T]) -> (r: (
    usize,
    T,
    usize,
    T,
))
    requires
        arr@.len() >= S::lane_size(),
        whole_chunks(arr@.len() as int, S::lane_size()),
    ensures
        is_argmin(ords(arr@), r.0 as int),
        r.1 == arr@[r.0 as int],
        is_argmax(ords(arr@), r.2 as int),
        r.3 == arr@[r.2 as int],
{
    proof {
        S::lemma_shape();
    }
    let lane_size: usize = S::lane_count();
    let dtype_max: usize = find_largest_lower_multiple_of_lane_size(S::index_limit(), lane_size);
    let n: usize = arr.len();
    let ghost keys: Seq<int> = ords(arr@);

    let mut min_index: usize = 0;
    let mut min_value: T = arr[0];
    let mut max_index: usize = 0;
    let mut max_value: T = arr[0];
    let mut start: usize = 0;
    proof {
        vstd::arithmetic::div_mod::lemma_small_mod(0, lane_size as nat);
    }
    while start < n
        invariant
            lane_size == S::lane_size(),
            0 < S::lane_size() <= S::max_index(),
            n == arr@.len(),
            n > 0,
            keys == ords(arr@),
            whole_chunks(n as int, S::lane_size()),
            whole_chunks(start as int, S::lane_size()),
            whole_chunks(dtype_max as int, S::lane_size()),
            lane_size <= dtype_max <= S::max_index(),
            start <= n,
            min_index < n,
            max_index < n,
            min_value == arr@[min_index as int],
            max_value == arr@[max_index as int],
            start == 0 ==> min_index == 0 && max_index == 0,
            start > 0 ==> first_min_in(keys, 0, start as int, min_index as int),
            start > 0 ==> first_max_in(keys, 0, start as int, max_index as int),
        decreases n - start,
    {
        let end: usize = if n - start > dtype_max {
            start + dtype_max
        } else {
            n
        };
        proof {
            lemma_chunks_diff(n as int, start as int, S::lane_size());
            lemma_chunks_sum(start as int, dtype_max as int, S::lane_size());
        }
        let segment: &[T] = vstd::slice::slice_subrange(arr, start, end);
        let (seg_min_index, seg_min_value, seg_max_index, seg_max_value) = core_argminmax::<T, S>(
            segment,
        );
        proof {
            crate::element::lemma_ords_of_window(arr@, start as int, end as int);
            crate::extrema::lemma_first_min_of_window(
                keys,
                start as int,
                end as int,
                seg_min_index as int,
            );
            crate::extrema::lemma_first_max_of_window(
                keys,
                start as int,
                end as int,
                seg_max_index as int,
            );
            assert(keys[start + seg_min_index] == seg_min_value.ord());
            assert(keys[start + seg_max_index] == seg_max_value.ord());
            assert(keys[min_index as int] == min_value.ord());
            assert(keys[max_index as int] == max_value.ord());
            if start > 0 {
                crate::extrema::lemma_first_min_join(
                    keys,
                    0,
                    start as int,
                    end as int,
                    min_index as int,
                    start + seg_min_index,
                );
                crate::extrema::lemma_first_max_join(
                    keys,
                    0,
                    start as int,
                    end as int,
                    max_index as int,
                    start + seg_max_index,
                );
            } else {
                assert(keys[seg_min_index as int] <= keys[0]);
                assert(keys[seg_max_index as int] >= keys[0]);
            }
        }
        if seg_min_value.less(min_value) {
            min_index = start + seg_min_index;
            min_value = seg_min_value;
        }
        if max_value.less(seg_max_value) {
            max_index = start + seg_max_index;
            max_value = seg_max_value;
        }
        start = end;
    }
    (min_index, min_value, max_index, max_value)
}

/// The kernel of a specialization: positions of the first smallest and of the
/// first largest element of a sequence that is not empty.
pub trait SIMDArgMinMax<T: Element>: SIMDOps<T> {
    /// Returns `(argmin, argmax)` of `data`.
    fn argminmax(data: &[T]) -> (r: (usize, usize))
        requires
            data@.len() > 0,
        ensures
            is_argmin(ords(data@), r.0 as int),
            is_argmax(ords(data@), r.1 as int),
    ;
}

} // verus!
