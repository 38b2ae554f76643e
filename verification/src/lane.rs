//! Lanes and registers.
//!
//! A register is an array of `L` lanes of one integer type. The operations
//! here are the lane-wise primitives that every instruction family offers:
//! they act on all lanes at once and never look across lanes, but for the
//! rotations, which only move lanes.
use vstd::prelude::*;

verus! {

/// `x` brought into `lo..=hi` the way fixed-width addition wraps. It is meant
/// for the sum of two values of `lo..=hi`.
pub open spec fn wrapped(x: int, lo: int, hi: int) -> int {
    if x > hi {
        x - (hi - lo + 1)
    } else if x < lo {
        x + (hi - lo + 1)
    } else {
        x
    }
}

/// An integer type that a lane can hold.
pub trait Lane: Copy {
    /// The integer that the lane holds.
    spec fn val(self) -> int;

    /// The smallest value of the type.
    spec fn lo() -> int;

    /// The largest value of the type.
    spec fn hi() -> int;

    /// Every value lies between the smallest and the largest of the type.
    proof fn lemma_in_range(self)
        ensures
            Self::lo() <= self.val() <= Self::hi(),
    ;

    /// Whether `self` is smaller than `other`.
    fn is_lt(self, other: Self) -> (r: bool)
        ensures
            r == (self.val() < other.val()),
    ;

    /// Whether `self` is larger than `other`.
    fn is_gt(self, other: Self) -> (r: bool)
        ensures
            r == (self.val() > other.val()),
    ;

    /// Whether both hold the same integer.
    fn is_eq(self, other: Self) -> (r: bool)
        ensures
            r == (self.val() == other.val()),
    ;

    /// The sum, wrapped at the bounds of the type.
    fn add_wrapping(self, other: Self) -> (r: Self)
        ensures
            r.val() == wrapped(self.val() + other.val(), Self::lo(), Self::hi()),
    ;

    /// The lane that holds the position `i`.
    fn of_index(i: usize) -> (r: Self)
        requires
            i <= Self::hi(),
        ensures
            r.val() == i,
    ;

    /// The position that the lane holds.
    fn to_index(self) -> (i: usize)
        requires
            0 <= self.val() <= usize::MAX,
        ensures
            i == self.val(),
    ;

    /// The largest value of the type.
    fn highest() -> (r: Self)
        ensures
            r.val() == Self::hi(),
    ;
}

impl Lane for i8 {
    open spec fn val(self) -> int {
        self as int
    }

    open spec fn lo() -> int {
        i8::MIN as int
    }

    open spec fn hi() -> int {
        i8::MAX as int
    }

    proof fn lemma_in_range(self) {
    }

    fn is_lt(self, other: Self) -> (r: bool) {
        self < other
    }

    fn is_gt(self, other: Self) -> (r: bool) {
        self > other
    }

    fn is_eq(self, other: Self) -> (r: bool) {
        self == other
    }

    fn add_wrapping(self, other: Self) -> (r: Self) {
        self.wrapping_add(other)
    }

    fn of_index(i: usize) -> (r: Self) {
        i as i8
    }

    fn to_index(self) -> (i: usize) {
        self as usize
    }

    fn highest() -> (r: Self) {
        i8::MAX
    }
}

impl Lane for i16 {
    open spec fn val(self) -> int {
        self as int
    }

    open spec fn lo() -> int {
        i16::MIN as int
    }

    open spec fn hi() -> int {
        i16::MAX as int
    }

    proof fn lemma_in_range(self) {
    }

    fn is_lt(self, other: Self) -> (r: bool) {
        self < other
    }

    fn is_gt(self, other: Self) -> (r: bool) {
        self > other
    }

    fn is_eq(self, other: Self) -> (r: bool) {
        self == other
    }

    fn add_wrapping(self, other: Self) -> (r: Self) {
        self.wrapping_add(other)
    }

    fn of_index(i: usize) -> (r: Self) {
        i as i16
    }

    fn to_index(self) -> (i: usize) {
        self as usize
    }

    fn highest() -> (r: Self) {
        i16::MAX
    }
}

impl Lane for i32 {
    open spec fn val(self) -> int {
        self as int
    }

    open spec fn lo() -> int {
        i32::MIN as int
    }

    open spec fn hi() -> int {
        i32::MAX as int
    }

    proof fn lemma_in_range(self) {
    }

    fn is_lt(self, other: Self) -> (r: bool) {
        self < other
    }

    fn is_gt(self, other: Self) -> (r: bool) {
        self > other
    }

    fn is_eq(self, other: Self) -> (r: bool) {
        self == other
    }

    fn add_wrapping(self, other: Self) -> (r: Self) {
        self.wrapping_add(other)
    }

    fn of_index(i: usize) -> (r: Self) {
        i as i32
    }

    fn to_index(self) -> (i: usize) {
        self as usize
    }

    fn highest() -> (r: Self) {
        i32::MAX
    }
}

impl Lane for i64 {
    open spec fn val(self) -> int {
        self as int
    }

    open spec fn lo() -> int {
        i64::MIN as int
    }

    open spec fn hi() -> int {
        i64::MAX as int
    }

    proof fn lemma_in_range(self) {
    }

    fn is_lt(self, other: Self) -> (r: bool) {
        self < other
    }

    fn is_gt(self, other: Self) -> (r: bool) {
        self > other
    }

    fn is_eq(self, other: Self) -> (r: bool) {
        self == other
    }

    fn add_wrapping(self, other: Self) -> (r: Self) {
        self.wrapping_add(other)
    }

    fn of_index(i: usize) -> (r: Self) {
        i as i64
    }

    fn to_index(self) -> (i: usize) {
        self as usize
    }

    fn highest() -> (r: Self) {
        i64::MAX
    }
}

/// The integers that the lanes of a register hold, lane 0 first.
pub open spec fn lane_vals<O: Lane, const L: usize>(v: [O; L]) -> Seq<int> {
    Seq::new(L as nat, |k: int| v[k].val())
}

/// `(i, v)` is the pair of one lane, `v` is the smallest value of all lanes,
/// and `i` is the smallest index among the lanes that hold `v`.
pub open spec fn lanes_first_min(index: Seq<int>, value: Seq<int>, i: int, v: int) -> bool {
    &&& index.len() == value.len()
    &&& exists|k: int| 0 <= k < value.len() && #[trigger] value[k] == v && index[k] == i
    &&& forall|k: int| 0 <= k < value.len() ==> v <= #[trigger] value[k]
    &&& forall|k: int| 0 <= k < value.len() && #[trigger] value[k] == v ==> i <= index[k]
}

/// A pair of registers has one first minimum only: the scan and the
/// reduction inside the registers return the same pair.
pub proof fn lemma_lanes_first_min_unique(
    index: Seq<int>,
    value: Seq<int>,
    a: (int, int),
    b: (int, int),
)
    requires
        lanes_first_min(index, value, a.0, a.1),
        lanes_first_min(index, value, b.0, b.1),
    ensures
        a == b,
{
    let ka = choose|k: int| 0 <= k < value.len() && #[trigger] value[k] == a.1 && index[k] == a.0;
    let kb = choose|k: int| 0 <= k < value.len() && #[trigger] value[k] == b.1 && index[k] == b.0;
    assert(a.1 <= value[kb] && b.1 <= value[ka]);
}

/// `(i, v)` is the pair of one lane, `v` is the largest value of all lanes,
/// and `i` is the smallest index among the lanes that hold `v`.
pub open spec fn lanes_first_max(index: Seq<int>, value: Seq<int>, i: int, v: int) -> bool {
    &&& index.len() == value.len()
    &&& exists|k: int| 0 <= k < value.len() && #[trigger] value[k] == v && index[k] == i
    &&& forall|k: int| 0 <= k < value.len() ==> v >= #[trigger] value[k]
    &&& forall|k: int| 0 <= k < value.len() && #[trigger] value[k] == v ==> i <= index[k]
}

/// A pair of registers has one first maximum only: the scan and the
/// reduction inside the registers return the same pair.
pub proof fn lemma_lanes_first_max_unique(
    index: Seq<int>,
    value: Seq<int>,
    a: (int, int),
    b: (int, int),
)
    requires
        lanes_first_max(index, value, a.0, a.1),
        lanes_first_max(index, value, b.0, b.1),
    ensures
        a == b,
{
    let ka = choose|k: int| 0 <= k < value.len() && #[trigger] value[k] == a.1 && index[k] == a.0;
    let kb = choose|k: int| 0 <= k < value.len() && #[trigger] value[k] == b.1 && index[k] == b.0;
    assert(a.1 >= value[kb] && b.1 >= value[ka]);
}

/// Every index is a position that is not above `limit` and fits the machine's
/// word.
pub open spec fn positions_up_to(index: Seq<int>, limit: int) -> bool {
    forall|k: int|
        0 <= k < index.len() ==> 0 <= #[trigger] index[k] <= limit && index[k] <= usize::MAX
}

/// A register with `x` in every lane.
pub fn lanes_splat<O: Lane, const L: usize>(x: O) -> (r: [O; L])
    ensures
        forall|k: int| 0 <= k < L ==> r[k] == x,
{
    [x;L]
}

/// The register `[0, 1, .., L - 1]`.
pub fn lanes_iota<O: Lane, const L: usize>() -> (r: [O; L])
    requires
        0 < L <= O::hi(),
    ensures
        forall|k: int| 0 <= k < L ==> r[k].val() == k,
{
    let mut r: [O; L] = [O::of_index(0);L];
    let mut k: usize = 0;
    while k < L
        invariant
            k <= L,
            L <= O::hi(),
            forall|j: int| 0 <= j < k ==> r[j].val() == j,
        decreases L - k,
    {
        r[k] = O::of_index(k);
        k += 1;
    }
    r
}

/// Reads the `L` elements of `data` that start at `at`.
pub fn lanes_load<O: Lane, const L: usize>(data: &[O], at: usize) -> (r: [O; L])
    requires
        0 < L,
        at + L <= data@.len(),
    ensures
        forall|k: int| 0 <= k < L ==> r[k] == data@[at + k],
{
    let mut r: [O; L] = [data[at];L];
    let mut k: usize = 0;
    while k < L
        invariant
            k <= L,
            at + L <= data.len(),
            forall|j: int| 0 <= j < k ==> r[j] == data@[at + j],
        decreases L - k,
    {
        r[k] = data[at + k];
        k += 1;
    }
    r
}

/// Lane-wise wrapping sum.
pub fn lanes_add<O: Lane, const L: usize>(a: [O; L], b: [O; L]) -> (r: [O; L])
    ensures
        forall|k: int|
            0 <= k < L ==> r[k].val() == wrapped(a[k].val() + b[k].val(), O::lo(), O::hi()),
{
    let mut r: [O; L] = a;
    let mut k: usize = 0;
    while k < L
        invariant
            k <= L,
            forall|j: int|
                0 <= j < k ==> r[j].val() == wrapped(a[j].val() + b[j].val(), O::lo(), O::hi()),
        decreases L - k,
    {
        r[k] = a[k].add_wrapping(b[k]);
        k += 1;
    }
    r
}

/// Lane-wise `a > b`, as one flag for each lane.
pub fn lanes_gt<O: Lane, const L: usize>(a: [O; L], b: [O; L]) -> (m: [bool; L])
    ensures
        forall|k: int| 0 <= k < L ==> m[k] == (a[k].val() > b[k].val()),
{
    let mut m: [bool; L] = [false;L];
    let mut k: usize = 0;
    while k < L
        invariant
            k <= L,
            forall|j: int| 0 <= j < k ==> m[j] == (a[j].val() > b[j].val()),
        decreases L - k,
    {
        m[k] = a[k].is_gt(b[k]);
        k += 1;
    }
    m
}

/// Lane-wise `a < b`, as one flag for each lane.
pub fn lanes_lt<O: Lane, const L: usize>(a: [O; L], b: [O; L]) -> (m: [bool; L])
    ensures
        forall|k: int| 0 <= k < L ==> m[k] == (a[k].val() < b[k].val()),
{
    let mut m: [bool; L] = [false;L];
    let mut k: usize = 0;
    while k < L
        invariant
            k <= L,
            forall|j: int| 0 <= j < k ==> m[j] == (a[j].val() < b[j].val()),
        decreases L - k,
    {
        m[k] = a[k].is_lt(b[k]);
        k += 1;
    }
    m
}

/// Lane-wise `a == b`, as one flag for each lane.
pub fn lanes_eq<O: Lane, const L: usize>(a: [O; L], b: [O; L]) -> (m: [bool; L])
    ensures
        forall|k: int| 0 <= k < L ==> m[k] == (a[k].val() == b[k].val()),
{
    let mut m: [bool; L] = [false;L];
    let mut k: usize = 0;
    while k < L
        invariant
            k <= L,
            forall|j: int| 0 <= j < k ==> m[j] == (a[j].val() == b[j].val()),
        decreases L - k,
    {
        m[k] = a[k].is_eq(b[k]);
        k += 1;
    }
    m
}

/// Lane-wise select: the lane of `b` where the flag is set, else that of `a`.
pub fn lanes_blend<O: Lane, const L: usize>(a: [O; L], b: [O; L], m: [bool; L]) -> (r: [O; L])
    ensures
        forall|k: int| 0 <= k < L ==> r[k] == if m[k] { b[k] } else { a[k] },
{
    let mut r: [O; L] = a;
    let mut k: usize = 0;
    while k < L
        invariant
            k <= L,
            forall|j: int| 0 <= j < k ==> r[j] == if m[j] { b[j] } else { a[j] },
            forall|j: int| k <= j < L ==> r[j] == a[j],
        decreases L - k,
    {
        if m[k] {
            r[k] = b[k];
        }
        k += 1;
    }
    r
}

/// Lane-wise smaller value.
pub fn lanes_min<O: Lane, const L: usize>(a: [O; L], b: [O; L]) -> (r: [O; L])
    ensures
        forall|k: int| 0 <= k < L ==> r[k] == if b[k].val() < a[k].val() { b[k] } else { a[k] },
{
    let mut r: [O; L] = a;
    let mut k: usize = 0;
    while k < L
        invariant
            k <= L,
            forall|j: int| 0 <= j < k ==> r[j] == if b[j].val() < a[j].val() { b[j] } else { a[j] },
            forall|j: int| k <= j < L ==> r[j] == a[j],
        decreases L - k,
    {
        if b[k].is_lt(a[k]) {
            r[k] = b[k];
        }
        k += 1;
    }
    r
}

/// Lane-wise larger value.
pub fn lanes_max<O: Lane, const L: usize>(a: [O; L], b: [O; L]) -> (r: [O; L])
    ensures
        forall|k: int| 0 <= k < L ==> r[k] == if b[k].val() > a[k].val() { b[k] } else { a[k] },
{
    let mut r: [O; L] = a;
    let mut k: usize = 0;
    while k < L
        invariant
            k <= L,
            forall|j: int| 0 <= j < k ==> r[j] == if b[j].val() > a[j].val() { b[j] } else { a[j] },
            forall|j: int| k <= j < L ==> r[j] == a[j],
        decreases L - k,
    {
        if b[k].is_gt(a[k]) {
            r[k] = b[k];
        }
        k += 1;
    }
    r
}

/// The lane that lies `by` lanes after lane `k`, counted round a register of
/// `l` lanes.
pub open spec fn rotated(k: int, by: int, l: int) -> int {
    if k + by < l {
        k + by
    } else {
        k + by - l
    }
}

/// Rotates the whole register: lane `k` receives the lane that lies `by`
/// lanes further, counted round the register.
pub fn lanes_rotate<O: Lane, const L: usize>(v: [O; L], by: usize) -> (r: [O; L])
    requires
        by < L,
    ensures
        forall|k: int| 0 <= k < L ==> r[k] == v[rotated(k, by as int, L as int)],
{
    let mut r: [O; L] = v;
    let mut k: usize = 0;
    while k < L
        invariant
            k <= L,
            by < L,
            forall|j: int| 0 <= j < k ==> r[j] == v[rotated(j, by as int, L as int)],
        decreases L - k,
    {
        r[k] = if k < L - by {
            v[k + by]
        } else {
            v[k - (L - by)]
        };
        k += 1;
    }
    r
}

/// Rotates every group of 16 lanes by itself: lane `k` receives the lane of
/// its own group that lies `by` lanes further, counted round the group.
pub fn lanes_rotate_within<O: Lane, const L: usize>(v: [O; L], by: usize) -> (r: [O; L])
    requires
        by < 16,
        L % 16 == 0,
    ensures
        forall|k: int| 0 <= k < L ==> r[k] == v[k - k % 16 + (k % 16 + by) % 16],
{
    let mut r: [O; L] = v;
    let mut k: usize = 0;
    while k < L
        invariant
            k <= L,
            by < 16,
            L % 16 == 0,
            forall|j: int| 0 <= j < k ==> r[j] == v[j - j % 16 + (j % 16 + by) % 16],
        decreases L - k,
    {
        r[k] = v[k - k % 16 + (k % 16 + by) % 16];
        k += 1;
    }
    r
}

/// Scans the lanes for the smallest value and returns its lane's index and
/// value; of several lanes with that value, the one with the smallest index.
pub fn min_index_value<O: Lane, const L: usize>(index: &[O; L], values: &[O; L]) -> (r: (O, O))
    requires
        L > 0,
    ensures
        lanes_first_min(lane_vals(*index), lane_vals(*values), r.0.val(), r.1.val()),
{
    let ghost iv = lane_vals(*index);
    let ghost vv = lane_vals(*values);
    let mut min_idx: O = index[0];
    let mut min_val: O = values[0];
    let ghost mut at: int = 0;
    let mut k: usize = 1;
    while k < L
        invariant
            1 <= k <= L,
            iv == lane_vals(*index),
            vv == lane_vals(*values),
            0 <= at < k,
            vv[at] == min_val.val(),
            iv[at] == min_idx.val(),
            forall|j: int| 0 <= j < k ==> min_val.val() <= #[trigger] vv[j],
            forall|j: int|
                0 <= j < k && #[trigger] vv[j] == min_val.val() ==> min_idx.val() <= iv[j],
        decreases L - k,
    {
        let idx: O = index[k];
        let val: O = values[k];
        assert(vv[k as int] == val.val() && iv[k as int] == idx.val());
        if val.is_lt(min_val) || (val.is_eq(min_val) && idx.is_lt(min_idx)) {
            min_idx = idx;
            min_val = val;
            proof {
                at = k as int;
            }
        }
        k += 1;
    }
    (min_idx, min_val)
}

/// Scans the lanes for the largest value and returns its lane's index and
/// value; of several lanes with that value, the one with the smallest index.
pub fn max_index_value<O: Lane, const L: usize>(index: &[O; L], values: &[O; L]) -> (r: (O, O))
    requires
        L > 0,
    ensures
        lanes_first_max(lane_vals(*index), lane_vals(*values), r.0.val(), r.1.val()),
{
    let ghost iv = lane_vals(*index);
    let ghost vv = lane_vals(*values);
    let mut max_idx: O = index[0];
    let mut max_val: O = values[0];
    let ghost mut at: int = 0;
    let mut k: usize = 1;
    while k < L
        invariant
            1 <= k <= L,
            iv == lane_vals(*index),
            vv == lane_vals(*values),
            0 <= at < k,
            vv[at] == max_val.val(),
            iv[at] == max_idx.val(),
            forall|j: int| 0 <= j < k ==> max_val.val() >= #[trigger] vv[j],
            forall|j: int|
                0 <= j < k && #[trigger] vv[j] == max_val.val() ==> max_idx.val() <= iv[j],
        decreases L - k,
    {
        let idx: O = index[k];
        let val: O = values[k];
        assert(vv[k as int] == val.val() && iv[k as int] == idx.val());
        if val.is_gt(max_val) || (val.is_eq(max_val) && idx.is_lt(max_idx)) {
            max_idx = idx;
            max_val = val;
            proof {
                at = k as int;
            }
        }
        k += 1;
    }
    (max_idx, max_val)
}

} // verus!
