//! Horizontal reductions inside a register, and lane flags packed into the
//! bits of a word.
//!
//! The 8-bit kernels reduce their registers by a tree of lane-wise minima or
//! maxima of the register with a shuffled copy of itself: after the last
//! level every lane holds the extreme of all lanes. The position is found the
//! same way, after the index lanes whose value is not the extreme were
//! replaced by the largest value that a lane can hold. An index lane may hold
//! that value itself: it is then found as the smallest only where no lane
//! with the extreme has a smaller index.
use crate::lane::{
    lane_vals, lanes_blend, lanes_eq, lanes_first_max, lanes_first_min, lanes_max, lanes_min,
    lanes_rotate, lanes_rotate_within, lanes_splat, rotated, Lane,
};
use vstd::prelude::*;

verus! {

/// Whether bit `k` of `m` is set.
pub open spec fn bit_set(m: u64, k: int) -> bool {
    0 <= k < 64 && (m >> (k as u64)) & 1 == 1
}

proof fn lemma_bit_of_zero(j: u64)
    by (bit_vector)
    requires
        j < 64,
    ensures
        (0u64 >> j) & 1 == 0,
{
}

proof fn lemma_bit_after_set(m: u64, k: u64, j: u64)
    by (bit_vector)
    requires
        k < 64,
        j < 64,
    ensures
        (((m | (1u64 << k)) >> j) & 1 == 1) == (((m >> j) & 1 == 1) || j == k),
{
}

/// Packs one flag for each lane into a word: bit `k` is the flag of lane `k`,
/// and the bits from `L` on are clear.
pub fn flags_to_bits<const L: usize>(f: [bool; L]) -> (m: u64)
    requires
        L <= 64,
    ensures
        forall|k: int| 0 <= k < L ==> #[trigger] bit_set(m, k) == f[k],
        forall|k: int| L <= k < 64 ==> !#[trigger] bit_set(m, k),
{
    let mut m: u64 = 0;
    let mut k: usize = 0;
    proof {
        assert forall|j: int| 0 <= j < 64 implies !#[trigger] bit_set(m, j) by {
            lemma_bit_of_zero(j as u64);
        }
    }
    while k < L
        invariant
            k <= L <= 64,
            forall|j: int| 0 <= j < k ==> #[trigger] bit_set(m, j) == f[j],
            forall|j: int| k <= j < 64 ==> !#[trigger] bit_set(m, j),
        decreases L - k,
    {
        if f[k] {
            let ghost before = m;
            let shift: u64 = k as u64;
            m = m | (1u64 << shift);
            proof {
                assert forall|j: int| 0 <= j < 64 implies #[trigger] bit_set(m, j) == (bit_set(
                    before,
                    j,
                ) || j == k) by {
                    lemma_bit_after_set(before, shift, j as u64);
                }
            }
        }
        k += 1;
    }
    m
}

/// Unpacks the low `L` bits of a word into one flag for each lane.
pub fn bits_to_flags<const L: usize>(m: u64) -> (f: [bool; L])
    requires
        L <= 64,
    ensures
        forall|k: int| 0 <= k < L ==> f[k] == bit_set(m, k),
{
    let mut f: [bool; L] = [false;L];
    let mut k: usize = 0;
    while k < L
        invariant
            k <= L <= 64,
            forall|j: int| 0 <= j < k ==> f[j] == bit_set(m, j),
        decreases L - k,
    {
        let shift: u64 = k as u64;
        f[k] = (m >> shift) & 1 == 1;
        k += 1;
    }
    f
}

/// Whether `x` is at least as extreme as `y`: not smaller where the largest
/// value is sought, not larger where the smallest is.
pub open spec fn no_worse(x: int, y: int, largest: bool) -> bool {
    if largest {
        x >= y
    } else {
        x <= y
    }
}

/// The more extreme of `x` and `y`; `x` where they are equal.
pub open spec fn better_of(x: int, y: int, largest: bool) -> int {
    if largest {
        if y > x {
            y
        } else {
            x
        }
    } else {
        if y < x {
            y
        } else {
            x
        }
    }
}

/// `x` is one of the values of `s`.
pub open spec fn appears_in(s: Seq<int>, x: int) -> bool {
    exists|j: int| 0 <= j < s.len() && #[trigger] s[j] == x
}

/// `e` is a value of `s` and no value of `s` is more extreme.
pub open spec fn is_extreme_of(s: Seq<int>, e: int, largest: bool) -> bool {
    &&& appears_in(s, e)
    &&& forall|j: int| 0 <= j < s.len() ==> no_worse(e, #[trigger] s[j], largest)
}

/// A sequence has one extreme value only.
pub proof fn lemma_extreme_unique(s: Seq<int>, a: int, b: int, largest: bool)
    requires
        is_extreme_of(s, a, largest),
        is_extreme_of(s, b, largest),
    ensures
        a == b,
{
    let ja = choose|j: int| 0 <= j < s.len() && #[trigger] s[j] == a;
    let jb = choose|j: int| 0 <= j < s.len() && #[trigger] s[j] == b;
    assert(no_worse(a, s[jb], largest));
    assert(no_worse(b, s[ja], largest));
}

/// How far a reduction tree has come. Every lane of `v` holds a value of
/// `v0`, and that value is no worse than any lane of `v0` whose distance to it
/// is a multiple of `d`.
pub open spec fn covers(v0: Seq<int>, v: Seq<int>, d: int, largest: bool) -> bool {
    &&& v.len() == v0.len()
    &&& forall|k: int, j: int|
        0 <= k < v.len() && 0 <= j < v.len() && (j - k) % d == 0 ==> no_worse(
            #[trigger] v[k],
            #[trigger] v0[j],
            largest,
        )
    &&& forall|k: int| 0 <= k < v.len() ==> appears_in(v0, #[trigger] v[k])
}

/// A lane at a distance of a multiple of `d` from `k` lies at a distance of a
/// multiple of `2 * d` either from `k` or from any lane `k2` that is an odd
/// number of `d` away from `k`.
proof fn lemma_class_split(k: int, k2: int, j: int, d: int)
    requires
        d > 0,
        (j - k) % d == 0,
        (k2 - k - d) % (2 * d) == 0,
    ensures
        (j - k) % (2 * d) == 0 || (j - k2) % (2 * d) == 0,
{
    let x = j - k;
    let q = x / d;
    let w = (k2 - k - d) / (2 * d);
    let h = q / 2;
    vstd::arithmetic::div_mod::lemma_fundamental_div_mod(x, d);
    vstd::arithmetic::div_mod::lemma_fundamental_div_mod(k2 - k - d, 2 * d);
    assert(x == d * q);
    assert(k2 - k - d == (2 * d) * w);
    if q % 2 == 0 {
        assert(x == h * (2 * d)) by (nonlinear_arith)
            requires
                x == d * q,
                q == 2 * h,
        ;
        vstd::arithmetic::div_mod::lemma_mod_multiples_basic(h, 2 * d);
    } else {
        assert(j - k2 == (h - w) * (2 * d)) by (nonlinear_arith)
            requires
                x == d * q,
                q == 2 * h + 1,
                k2 - k - d == (2 * d) * w,
                x == j - k,
        ;
        vstd::arithmetic::div_mod::lemma_mod_multiples_basic(h - w, 2 * d);
    }
}

/// One level of a reduction tree: where every lane takes the better of itself
/// and of a partner that is an odd number of `d` lanes away, the distance that
/// a lane covers shrinks from `2 * d` to `d`.
pub proof fn lemma_fold_step(
    v0: Seq<int>,
    v: Seq<int>,
    v2: Seq<int>,
    partner: Seq<int>,
    d: int,
    largest: bool,
)
    requires
        d > 0,
        covers(v0, v, 2 * d, largest),
        v2.len() == v.len(),
        partner.len() == v.len(),
        forall|k: int|
            #![trigger partner[k]]
            0 <= k < v.len() ==> 0 <= partner[k] < v.len() && (partner[k] - k - d) % (2 * d) == 0
                && v2[k] == better_of(v[k], v[partner[k]], largest),
    ensures
        covers(v0, v2, d, largest),
{
    assert forall|k: int, j: int|
        0 <= k < v2.len() && 0 <= j < v2.len() && (j - k) % d == 0 implies no_worse(
        #[trigger] v2[k],
        #[trigger] v0[j],
        largest,
    ) by {
        let p = partner[k];
        assert(v2[k] == better_of(v[k], v[p], largest));
        lemma_class_split(k, p, j, d);
        if (j - k) % (2 * d) == 0 {
            assert(no_worse(v[k], v0[j], largest));
        } else {
            assert(no_worse(v[p], v0[j], largest));
        }
    }
    assert forall|k: int| 0 <= k < v2.len() implies appears_in(v0, #[trigger] v2[k]) by {
        let p = partner[k];
        assert(v2[k] == better_of(v[k], v[p], largest));
        assert(appears_in(v0, v[k]));
        assert(appears_in(v0, v[p]));
    }
}

/// The lane of the group of `k` that lies `by` lanes further, counted round
/// the group of 16 lanes.
#[verifier::opaque]
pub open spec fn rotated_within(k: int, by: int) -> int {
    k - k % 16 + (k % 16 + by) % 16
}

/// The partner of a lane inside its group of 16 lies in the register, and its
/// distance to the lane is `by` or `by - 16`: an odd number of `by` for each
/// of the distances 8, 4, 2 and 1.
proof fn lemma_rotated_within(k: int, by: int, l: int)
    requires
        0 <= k < l,
        l % 16 == 0,
        by == 8 || by == 4 || by == 2 || by == 1,
    ensures
        0 <= rotated_within(k, by) < l,
        (rotated_within(k, by) - k - by) % (2 * by) == 0,
{
    reveal(rotated_within);
    let p = rotated_within(k, by);
    assert(l == 16 * (l / 16));
    assert(k - k % 16 == 16 * (k / 16));
    assert(p - k - by == 0 || p - k - by == -16);
    if by == 8 {
        assert(0int % 16 == 0 && (-16int) % 16 == 0);
    } else if by == 4 {
        assert(0int % 8 == 0 && (-16int) % 8 == 0);
    } else if by == 2 {
        assert(0int % 4 == 0 && (-16int) % 4 == 0);
    } else {
        assert(0int % 2 == 0 && (-16int) % 2 == 0);
    }
}

/// One level of a tree inside every group of 16 lanes, at one of the
/// distances 8, 4, 2 and 1.
pub proof fn lemma_fold_within(
    v0: Seq<int>,
    v: Seq<int>,
    v2: Seq<int>,
    by: int,
    largest: bool,
)
    requires
        by == 8 || by == 4 || by == 2 || by == 1,
        v.len() % 16 == 0,
        covers(v0, v, 2 * by, largest),
        v2.len() == v.len(),
        forall|k: int|
            0 <= k < v.len() ==> #[trigger] v2[k] == better_of(
                v[k],
                v[rotated_within(k, by)],
                largest,
            ),
    ensures
        covers(v0, v2, by, largest),
{
    let l = v.len() as int;
    let partner = Seq::new(v.len(), |k: int| rotated_within(k, by));
    assert forall|k: int| #![trigger partner[k]] 0 <= k < l implies 0 <= partner[k] < l && (
    partner[k] - k - by) % (2 * by) == 0 && v2[k] == better_of(v[k], v[partner[k]], largest) by {
        lemma_rotated_within(k, by, l);
    }
    lemma_fold_step(v0, v, v2, partner, by, largest);
}

/// A register covers itself at the distance of its own length.
pub proof fn lemma_fold_start(v0: Seq<int>, largest: bool)
    requires
        v0.len() > 0,
    ensures
        covers(v0, v0, v0.len() as int, largest),
{
    let n = v0.len() as int;
    assert forall|k: int, j: int| 0 <= k < n && 0 <= j < n && (j - k) % n == 0 implies no_worse(
        #[trigger] v0[k],
        #[trigger] v0[j],
        largest,
    ) by {
        if j > k {
            vstd::arithmetic::div_mod::lemma_small_mod((j - k) as nat, n as nat);
        } else if j < k {
            vstd::arithmetic::div_mod::lemma_small_mod((k - j) as nat, n as nat);
            vstd::arithmetic::div_mod::lemma_mod_add_multiples_vanish(j - k, n);
            vstd::arithmetic::div_mod::lemma_small_mod((j - k + n) as nat, n as nat);
        }
    }
    assert forall|k: int| 0 <= k < n implies appears_in(v0, #[trigger] v0[k]) by {
        assert(v0[k] == v0[k]);
    }
}

/// At the distance 1 every lane holds the extreme of all lanes.
pub proof fn lemma_fold_end(v0: Seq<int>, v: Seq<int>, largest: bool)
    requires
        covers(v0, v, 1, largest),
    ensures
        forall|k: int| 0 <= k < v.len() ==> is_extreme_of(v0, #[trigger] v[k], largest),
{
    assert forall|k: int| 0 <= k < v.len() implies is_extreme_of(v0, #[trigger] v[k], largest) by {
        assert forall|j: int| 0 <= j < v0.len() implies no_worse(
            v[k],
            #[trigger] v0[j],
            largest,
        ) by {
            assert((j - k) % 1 == 0);
        }
        assert(appears_in(v0, v[k]));
    }
}

/// Lane-wise, the larger value where `largest` holds and the smaller one
/// where it does not.
pub fn lanes_extreme<O: Lane, const L: usize>(a: [O; L], b: [O; L], largest: bool) -> (r: [O; L])
    ensures
        forall|k: int|
            0 <= k < L ==> #[trigger] lane_vals(r)[k] == better_of(
                lane_vals(a)[k],
                lane_vals(b)[k],
                largest,
            ),
{
    if largest {
        lanes_max(a, b)
    } else {
        lanes_min(a, b)
    }
}

/// One level of a tree over the whole register: every lane takes the better
/// of itself and of the lane `by` lanes further, counted round the register.
fn fold_rotated<O: Lane, const L: usize>(v: [O; L], by: usize, largest: bool) -> (r: [O; L])
    requires
        0 < by < L,
    ensures
        forall|k: int|
            0 <= k < L ==> #[trigger] lane_vals(r)[k] == better_of(
                lane_vals(v)[k],
                lane_vals(v)[rotated(k, by as int, L as int)],
                largest,
            ),
{
    let shuffled: [O; L] = lanes_rotate(v, by);
    lanes_extreme(v, shuffled, largest)
}

/// One level of a tree inside every group of 16 lanes: every lane takes the
/// better of itself and of the lane of its group that lies `by` lanes
/// further, counted round the group.
fn fold_rotated_within<O: Lane, const L: usize>(v: [O; L], by: usize, largest: bool) -> (r: [
    O;
    L
])
    requires
        0 < by < 16,
        L % 16 == 0,
    ensures
        forall|k: int|
            0 <= k < L ==> #[trigger] lane_vals(r)[k] == better_of(
                lane_vals(v)[k],
                lane_vals(v)[rotated_within(k, by as int)],
                largest,
            ),
{
    let shuffled: [O; L] = lanes_rotate_within(v, by);
    proof {
        reveal(rotated_within);
    }
    lanes_extreme(v, shuffled, largest)
}

/// The last four levels of every tree: inside each group of 16 lanes, at the
/// distances 8, 4, 2 and 1.
fn fold_groups<O: Lane, const L: usize>(v: [O; L], Ghost(v0): Ghost<Seq<int>>, largest: bool) -> (r:
    [O; L])
    requires
        L % 16 == 0,
        covers(v0, lane_vals(v), 16, largest),
    ensures
        forall|k: int| 0 <= k < L ==> is_extreme_of(v0, #[trigger] lane_vals(r)[k], largest),
{
    let v8: [O; L] = fold_rotated_within(v, 8, largest);
    proof {
        lemma_fold_within(v0, lane_vals(v), lane_vals(v8), 8, largest);
    }
    let v4: [O; L] = fold_rotated_within(v8, 4, largest);
    proof {
        lemma_fold_within(v0, lane_vals(v8), lane_vals(v4), 4, largest);
    }
    let v2: [O; L] = fold_rotated_within(v4, 2, largest);
    proof {
        lemma_fold_within(v0, lane_vals(v4), lane_vals(v2), 2, largest);
    }
    let v1: [O; L] = fold_rotated_within(v2, 1, largest);
    proof {
        lemma_fold_within(v0, lane_vals(v2), lane_vals(v1), 1, largest);
        lemma_fold_end(v0, lane_vals(v1), largest);
    }
    v1
}

/// The tree of a 128-bit register of 16 lanes: four levels, at the distances
/// 8, 4, 2 and 1. Every lane of the result holds the extreme of `v`.
pub fn fold_128<O: Lane>(v: [O; 16], largest: bool) -> (r: [O; 16])
    ensures
        forall|k: int|
            0 <= k < 16 ==> is_extreme_of(lane_vals(v), #[trigger] lane_vals(r)[k], largest),
{
    proof {
        lemma_fold_start(lane_vals(v), largest);
    }
    fold_groups(v, Ghost(lane_vals(v)), largest)
}

/// The tree of a 256-bit register of 32 lanes: the two halves are swapped for
/// the first level, and each half is then reduced as a 128-bit register.
pub fn fold_256<O: Lane>(v: [O; 32], largest: bool) -> (r: [O; 32])
    ensures
        forall|k: int|
            0 <= k < 32 ==> is_extreme_of(lane_vals(v), #[trigger] lane_vals(r)[k], largest),
{
    let v16: [O; 32] = fold_rotated(v, 16, largest);
    proof {
        lemma_fold_start(lane_vals(v), largest);
        lemma_fold_step(
            lane_vals(v),
            lane_vals(v),
            lane_vals(v16),
            Seq::new(32, |k: int| rotated(k, 16, 32)),
            16,
            largest,
        );
    }
    fold_groups(v16, Ghost(lane_vals(v)), largest)
}

/// The tree of a 512-bit register of 64 lanes: the register is rotated by a
/// half and by a quarter for the first two levels, and each quarter is then
/// reduced as a 128-bit register.
pub fn fold_512<O: Lane>(v: [O; 64], largest: bool) -> (r: [O; 64])
    ensures
        forall|k: int|
            0 <= k < 64 ==> is_extreme_of(lane_vals(v), #[trigger] lane_vals(r)[k], largest),
{
    let v32: [O; 64] = fold_rotated(v, 32, largest);
    proof {
        lemma_fold_start(lane_vals(v), largest);
        lemma_fold_step(
            lane_vals(v),
            lane_vals(v),
            lane_vals(v32),
            Seq::new(64, |k: int| rotated(k, 32, 64)),
            32,
            largest,
        );
    }
    let v16: [O; 64] = fold_rotated(v32, 16, largest);
    proof {
        lemma_fold_step(
            lane_vals(v),
            lane_vals(v32),
            lane_vals(v16),
            Seq::new(64, |k: int| rotated(k, 16, 64)),
            16,
            largest,
        );
    }
    fold_groups(v16, Ghost(lane_vals(v)), largest)
}


/// Why the second tree finds the position. `search` holds the index of every
/// lane whose value is the extreme `e`, and `hi` in every other lane. No
/// index is above `hi`, so the smallest value of `search` is the smallest
/// index that goes with `e`: where it is `hi`, every lane that holds `e` has
/// the index `hi`.
pub proof fn lemma_search_index(
    index: Seq<int>,
    value: Seq<int>,
    e: int,
    search: Seq<int>,
    m: int,
    hi: int,
    largest: bool,
)
    requires
        index.len() == value.len(),
        search.len() == value.len(),
        is_extreme_of(value, e, largest),
        forall|k: int| 0 <= k < index.len() ==> #[trigger] index[k] <= hi,
        forall|k: int|
            0 <= k < value.len() ==> #[trigger] search[k] == if value[k] == e {
                index[k]
            } else {
                hi
            },
        is_extreme_of(search, m, false),
    ensures
        largest ==> lanes_first_max(index, value, m, e),
        !largest ==> lanes_first_min(index, value, m, e),
{
    let k0 = choose|j: int| 0 <= j < value.len() && #[trigger] value[j] == e;
    assert(search[k0] == index[k0]);
    assert(no_worse(m, search[k0], false));
    let k1 = choose|j: int| 0 <= j < search.len() && #[trigger] search[j] == m;
    if value[k1] == e {
        assert(value[k1] == e && index[k1] == m);
    } else {
        // The smallest value of `search` is `hi`, so the lane `k0`, whose
        // index is neither below it nor above `hi`, holds `hi` too.
        assert(index[k0] <= hi);
        assert(value[k0] == e && index[k0] == m);
    }
    assert forall|k: int| 0 <= k < value.len() implies no_worse(
        e,
        #[trigger] value[k],
        largest,
    ) by {}
    assert forall|k: int| 0 <= k < value.len() && #[trigger] value[k] == e implies m
        <= index[k] by {
        assert(no_worse(m, search[k], false));
    }
}

/// The two trees together. `folded` holds the extreme of `value` in every
/// lane, `search` holds the index of the lanes that hold the extreme and the
/// largest value of the type in the others, and `imin` holds the smallest
/// value of `search` in every lane. Lane 0 of `imin` and of `folded` is then
/// the pair that a scan would return.
proof fn lemma_two_trees<O: Lane, const L: usize>(
    index: [O; L],
    value: [O; L],
    folded: [O; L],
    search: [O; L],
    imin: [O; L],
    largest: bool,
)
    requires
        L > 0,
        forall|k: int|
            0 <= k < L ==> is_extreme_of(
                lane_vals(value),
                #[trigger] lane_vals(folded)[k],
                largest,
            ),
        forall|k: int|
            0 <= k < L ==> #[trigger] lane_vals(search)[k] == if lane_vals(value)[k] == lane_vals(
                folded,
            )[k] {
                lane_vals(index)[k]
            } else {
                O::hi()
            },
        forall|k: int|
            0 <= k < L ==> is_extreme_of(lane_vals(search), #[trigger] lane_vals(imin)[k], false),
    ensures
        largest ==> lanes_first_max(
            lane_vals(index),
            lane_vals(value),
            lane_vals(imin)[0],
            lane_vals(folded)[0],
        ),
        !largest ==> lanes_first_min(
            lane_vals(index),
            lane_vals(value),
            lane_vals(imin)[0],
            lane_vals(folded)[0],
        ),
{
    let e = lane_vals(folded)[0];
    assert forall|k: int| 0 <= k < L implies #[trigger] lane_vals(index)[k] <= O::hi() by {
        index[k].lemma_in_range();
    }
    assert(is_extreme_of(lane_vals(value), e, largest));
    assert(is_extreme_of(lane_vals(search), lane_vals(imin)[0], false));
    assert forall|k: int| 0 <= k < L implies #[trigger] lane_vals(search)[k] == if lane_vals(
        value,
    )[k] == e {
        lane_vals(index)[k]
    } else {
        O::hi()
    } by {
        assert(is_extreme_of(lane_vals(value), lane_vals(folded)[k], largest));
        lemma_extreme_unique(lane_vals(value), lane_vals(folded)[k], e, largest);
    }
    lemma_search_index(
        lane_vals(index),
        lane_vals(value),
        e,
        lane_vals(search),
        lane_vals(imin)[0],
        O::hi(),
        largest,
    );
}

/// Reduces a pair of 128-bit registers of 16 lanes to the extreme value and
/// the smallest index that goes with it.
pub fn horiz_128<O: Lane>(index: [O; 16], value: [O; 16], largest: bool) -> (r: (O, O))
    ensures
        largest ==> lanes_first_max(lane_vals(index), lane_vals(value), r.0.val(), r.1.val()),
        !largest ==> lanes_first_min(lane_vals(index), lane_vals(value), r.0.val(), r.1.val()),
{
    // The extreme value, in every lane.
    let folded: [O; 16] = fold_128(value, largest);
    // The lanes that hold it keep their index, the others get the largest
    // value of the type.
    let mask: [bool; 16] = lanes_eq(value, folded);
    let search_index: [O; 16] = lanes_blend(lanes_splat(O::highest()), index, mask);
    // The smallest index that is left.
    let imin: [O; 16] = fold_128(search_index, false);
    proof {
        lemma_two_trees(index, value, folded, search_index, imin, largest);
    }
    (imin[0], folded[0])
}

/// Reduces a pair of 256-bit registers of 32 lanes to the extreme value and
/// the smallest index that goes with it.
pub fn horiz_256<O: Lane>(index: [O; 32], value: [O; 32], largest: bool) -> (r: (O, O))
    ensures
        largest ==> lanes_first_max(lane_vals(index), lane_vals(value), r.0.val(), r.1.val()),
        !largest ==> lanes_first_min(lane_vals(index), lane_vals(value), r.0.val(), r.1.val()),
{
    let folded: [O; 32] = fold_256(value, largest);
    let mask: [bool; 32] = lanes_eq(value, folded);
    let search_index: [O; 32] = lanes_blend(lanes_splat(O::highest()), index, mask);
    let imin: [O; 32] = fold_256(search_index, false);
    proof {
        lemma_two_trees(index, value, folded, search_index, imin, largest);
    }
    (imin[0], folded[0])
}

/// Reduces a pair of 512-bit registers of 64 lanes to the extreme value and
/// the smallest index that goes with it. The lanes that hold the extreme are
/// marked by the bits of a word.
pub fn horiz_512<O: Lane>(index: [O; 64], value: [O; 64], largest: bool) -> (r: (O, O))
    ensures
        largest ==> lanes_first_max(lane_vals(index), lane_vals(value), r.0.val(), r.1.val()),
        !largest ==> lanes_first_min(lane_vals(index), lane_vals(value), r.0.val(), r.1.val()),
{
    let folded: [O; 64] = fold_512(value, largest);
    let mask: u64 = flags_to_bits(lanes_eq(value, folded));
    let search_index: [O; 64] = lanes_blend(
        lanes_splat(O::highest()),
        index,
        bits_to_flags(mask),
    );
    let imin: [O; 64] = fold_512(search_index, false);
    proof {
        assert forall|k: int| 0 <= k < 64 implies #[trigger] lane_vals(search_index)[k] == (
        if lane_vals(value)[k] == lane_vals(folded)[k] {
            lane_vals(index)[k]
        } else {
            O::hi()
        }) by {
            assert(bit_set(mask, k) == (lane_vals(value)[k] == lane_vals(folded)[k]));
        }
        lemma_two_trees(index, value, folded, search_index, imin, largest);
    }
    (imin[0], folded[0])
}

} // verus!
