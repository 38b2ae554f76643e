//! What it means for a position to be the argmin or the argmax of a sequence.
//!
//! All contracts of the crate are stated over sequences of mathematical
//! integers: the order keys of the elements. Ties are always resolved towards
//! the lowest position, which makes both positions unique.
use vstd::prelude::*;

verus! {

/// `i` lies in `from..to`, no key in `from..to` is smaller than `s[i]`, and
/// every key in `from..i` is strictly larger: `i` is the first position of the
/// minimum of that range.
pub open spec fn first_min_in(s: Seq<int>, from: int, to: int, i: int) -> bool {
    &&& 0 <= from <= i < to <= s.len()
    &&& forall|j: int| from <= j < to ==> s[i] <= #[trigger] s[j]
    &&& forall|j: int| from <= j < i ==> s[i] < #[trigger] s[j]
}

/// `i` lies in `from..to`, no key in `from..to` is larger than `s[i]`, and
/// every key in `from..i` is strictly smaller: `i` is the first position of the
/// maximum of that range.
pub open spec fn first_max_in(s: Seq<int>, from: int, to: int, i: int) -> bool {
    &&& 0 <= from <= i < to <= s.len()
    &&& forall|j: int| from <= j < to ==> s[i] >= #[trigger] s[j]
    &&& forall|j: int| from <= j < i ==> s[i] > #[trigger] s[j]
}

/// `i` is the lowest position that holds the smallest key of `s`.
pub open spec fn is_argmin(s: Seq<int>, i: int) -> bool {
    first_min_in(s, 0, s.len() as int, i)
}

/// `i` is the lowest position that holds the largest key of `s`.
pub open spec fn is_argmax(s: Seq<int>, i: int) -> bool {
    first_max_in(s, 0, s.len() as int, i)
}

/// A range has at most one first minimum.
pub proof fn lemma_first_min_unique(s: Seq<int>, from: int, to: int, i: int, j: int)
    requires
        first_min_in(s, from, to, i),
        first_min_in(s, from, to, j),
    ensures
        i == j,
{
    if i < j {
        assert(s[j] < s[i]);
        assert(s[i] <= s[j]);
    } else if j < i {
        assert(s[i] < s[j]);
        assert(s[j] <= s[i]);
    }
}

/// A range has at most one first maximum.
pub proof fn lemma_first_max_unique(s: Seq<int>, from: int, to: int, i: int, j: int)
    requires
        first_max_in(s, from, to, i),
        first_max_in(s, from, to, j),
    ensures
        i == j,
{
    if i < j {
        assert(s[j] > s[i]);
        assert(s[i] >= s[j]);
    } else if j < i {
        assert(s[i] > s[j]);
        assert(s[j] >= s[i]);
    }
}

/// The argmin of a sequence is unique: two functions that both return it agree.
pub proof fn lemma_argmin_unique(s: Seq<int>, i: int, j: int)
    requires
        is_argmin(s, i),
        is_argmin(s, j),
    ensures
        i == j,
{
    lemma_first_min_unique(s, 0, s.len() as int, i, j);
}

/// The argmax of a sequence is unique: two functions that both return it agree.
pub proof fn lemma_argmax_unique(s: Seq<int>, i: int, j: int)
    requires
        is_argmax(s, i),
        is_argmax(s, j),
    ensures
        i == j,
{
    lemma_first_max_unique(s, 0, s.len() as int, i, j);
}

/// Two adjacent ranges combine: the first minimum of `from..to` is that of the
/// right range where it is strictly smaller, and that of the left range
/// otherwise.
pub proof fn lemma_first_min_join(s: Seq<int>, from: int, mid: int, to: int, i: int, j: int)
    requires
        first_min_in(s, from, mid, i),
        first_min_in(s, mid, to, j),
    ensures
        first_min_in(s, from, to, if s[j] < s[i] { j } else { i }),
{
    let r = if s[j] < s[i] { j } else { i };
    assert forall|k: int| from <= k < to implies s[r] <= #[trigger] s[k] by {
        if k < mid {
            assert(s[i] <= s[k]);
        } else {
            assert(s[j] <= s[k]);
        }
    }
    assert forall|k: int| from <= k < r implies s[r] < #[trigger] s[k] by {
        if k < mid {
            if k < i {
                assert(s[i] < s[k]);
            } else {
                assert(s[i] <= s[k]);
            }
        } else {
            assert(s[j] < s[k]);
        }
    }
}

/// Two adjacent ranges combine: the first maximum of `from..to` is that of the
/// right range where it is strictly larger, and that of the left range
/// otherwise.
pub proof fn lemma_first_max_join(s: Seq<int>, from: int, mid: int, to: int, i: int, j: int)
    requires
        first_max_in(s, from, mid, i),
        first_max_in(s, mid, to, j),
    ensures
        first_max_in(s, from, to, if s[j] > s[i] { j } else { i }),
{
    let r = if s[j] > s[i] { j } else { i };
    assert forall|k: int| from <= k < to implies s[r] >= #[trigger] s[k] by {
        if k < mid {
            assert(s[i] >= s[k]);
        } else {
            assert(s[j] >= s[k]);
        }
    }
    assert forall|k: int| from <= k < r implies s[r] > #[trigger] s[k] by {
        if k < mid {
            if k < i {
                assert(s[i] > s[k]);
            } else {
                assert(s[i] >= s[k]);
            }
        } else {
            assert(s[j] > s[k]);
        }
    }
}

/// A first minimum found in a window `s.subrange(from, to)` is, moved by
/// `from`, the first minimum of the range `from..to` of `s`.
pub proof fn lemma_first_min_of_window(s: Seq<int>, from: int, to: int, i: int)
    requires
        0 <= from <= to <= s.len(),
        is_argmin(s.subrange(from, to), i),
    ensures
        first_min_in(s, from, to, from + i),
{
    let w = s.subrange(from, to);
    assert(w[i] == s[from + i]);
    assert forall|j: int| from <= j < to implies s[from + i] <= #[trigger] s[j] by {
        assert(w[j - from] == s[j]);
    }
    assert forall|j: int| from <= j < from + i implies s[from + i] < #[trigger] s[j] by {
        assert(w[j - from] == s[j]);
    }
}

/// A first maximum found in a window `s.subrange(from, to)` is, moved by
/// `from`, the first maximum of the range `from..to` of `s`.
pub proof fn lemma_first_max_of_window(s: Seq<int>, from: int, to: int, i: int)
    requires
        0 <= from <= to <= s.len(),
        is_argmax(s.subrange(from, to), i),
    ensures
        first_max_in(s, from, to, from + i),
{
    let w = s.subrange(from, to);
    assert(w[i] == s[from + i]);
    assert forall|j: int| from <= j < to implies s[from + i] >= #[trigger] s[j] by {
        assert(w[j - from] == s[j]);
    }
    assert forall|j: int| from <= j < from + i implies s[from + i] > #[trigger] s[j] by {
        assert(w[j - from] == s[j]);
    }
}


/// `i` is the lowest position that holds the smallest key among the positions
/// that `keep` marks.
pub open spec fn first_min_among(s: Seq<int>, keep: Seq<bool>, i: int) -> bool {
    &&& keep.len() == s.len()
    &&& 0 <= i < s.len()
    &&& keep[i]
    &&& forall|j: int| 0 <= j < s.len() && keep[j] ==> s[i] <= #[trigger] s[j]
    &&& forall|j: int| 0 <= j < i && keep[j] ==> s[i] < #[trigger] s[j]
}

/// `i` is the lowest position that holds the largest key among the positions
/// that `keep` marks.
pub open spec fn first_max_among(s: Seq<int>, keep: Seq<bool>, i: int) -> bool {
    &&& keep.len() == s.len()
    &&& 0 <= i < s.len()
    &&& keep[i]
    &&& forall|j: int| 0 <= j < s.len() && keep[j] ==> s[i] >= #[trigger] s[j]
    &&& forall|j: int| 0 <= j < i && keep[j] ==> s[i] > #[trigger] s[j]
}

/// Where every position is marked, the first minimum and maximum among the
/// marked positions are the argmin and the argmax.
pub proof fn lemma_among_all(s: Seq<int>, keep: Seq<bool>, i: int)
    requires
        keep.len() == s.len(),
        forall|j: int| 0 <= j < s.len() ==> #[trigger] keep[j],
    ensures
        is_argmin(s, i) <==> first_min_among(s, keep, i),
        is_argmax(s, i) <==> first_max_among(s, keep, i),
{
}

/// Any two results for the same keys are the same pair of positions: every
/// kernel agrees with the scalar pass and with every other kernel.
pub proof fn lemma_results_agree(s: Seq<int>, a: (int, int), b: (int, int))
    requires
        is_argmin(s, a.0),
        is_argmax(s, a.1),
        is_argmin(s, b.0),
        is_argmax(s, b.1),
    ensures
        a == b,
{
    lemma_argmin_unique(s, a.0, b.0);
    lemma_argmax_unique(s, a.1, b.1);
}

/// Of several positions that share the smallest key the argmin is the
/// lowest, and of several that share the largest key the argmax is.
pub proof fn lemma_ties_go_to_lowest(s: Seq<int>, argmin: int, argmax: int, j: int)
    requires
        is_argmin(s, argmin),
        is_argmax(s, argmax),
        0 <= j < s.len(),
    ensures
        s[j] == s[argmin] ==> argmin <= j,
        s[j] == s[argmax] ==> argmax <= j,
{
    if j < argmin {
        assert(s[argmin] < s[j]);
    }
    if j < argmax {
        assert(s[argmax] > s[j]);
    }
}

/// Every key lies between the key at the argmin and the key at the argmax.
pub proof fn lemma_extremes_bound_all(s: Seq<int>, argmin: int, argmax: int)
    requires
        is_argmin(s, argmin),
        is_argmax(s, argmax),
    ensures
        forall|i: int| 0 <= i < s.len() ==> s[argmin] <= #[trigger] s[i] <= s[argmax],
{
}

} // verus!
