//! One-dimensional array views of `ndarray` as input.
//!
//! A view is kept as `ndarray` made it and is read through `ndarray` only.
//! What the verified code knows of it is the sequence of its elements.
use vstd::prelude::*;

verus! {

/// A read-only one-dimensional view of 64-bit integers.
///
/// The view itself is `ndarray::ArrayView1<i64>`. Nothing of its layout is
/// visible here.
#[verifier::external_body]
pub struct Int64View<'a> {
    inner: ndarray::ArrayView1<'a, i64>,
}

/// The elements that a view shows, in their logical order.
pub uninterp spec fn view_elems(v: Int64View<'_>) -> Seq<i64>;

impl<'a> View for Int64View<'a> {
    type V = Seq<i64>;

    open spec fn view(&self) -> Seq<i64> {
        view_elems(*self)
    }
}

/// `ArrayView1::from(&[i64])`: a view of the slice, element for element.
/// The conversion refuses a slice only where the elements have no size, which
/// is not the case here.
#[verifier::external_body]
fn view_of_slice<'a>(data: &'a [i64]) -> (v: Int64View<'a>)
    ensures
        view_elems(v) == data@,
{
    Int64View { inner: ndarray::ArrayView1::from(data) }
}

/// `ArrayBase::len`: the number of elements of the view.
#[verifier::external_body]
fn view_len(v: &Int64View<'_>) -> (n: usize)
    ensures
        n == view_elems(*v).len(),
{
    v.inner.len()
}

/// `ArrayBase::index` with a single position: the element there. It panics
/// on a position outside the view, which the precondition excludes.
#[verifier::external_body]
fn view_index(v: &Int64View<'_>, i: usize) -> (x: i64)
    requires
        i < view_elems(*v).len(),
    ensures
        x == view_elems(*v)[i as int],
{
    v.inner[i]
}

/// `ArrayView::split_at` along the only axis: the view of the elements
/// before `index` and the view of the elements from `index` on. It panics on
/// an index beyond the length, which the precondition excludes.
#[verifier::external_body]
fn view_split_at<'a>(v: Int64View<'a>, index: usize) -> (r: (Int64View<'a>, Int64View<'a>))
    requires
        index <= view_elems(v).len(),
    ensures
        view_elems(r.0) == view_elems(v).subrange(0, index as int),
        view_elems(r.1) == view_elems(v).subrange(index as int, view_elems(v).len() as int),
{
    let (left, right) = v.inner.split_at(ndarray::Axis(0), index);
    (Int64View { inner: left }, Int64View { inner: right })
}

impl<'a> Int64View<'a> {
    /// A view of all of `data`.
    pub fn new(data: &'a [i64]) -> (v: Self)
        ensures
            v@ == data@,
    {
        view_of_slice(data)
    }

    /// The number of elements.
    pub fn len(&self) -> (n: usize)
        ensures
            n == self@.len(),
    {
        view_len(self)
    }

    /// Whether the view has no element.
    pub fn is_empty(&self) -> (b: bool)
        ensures
            b == (self@.len() == 0),
    {
        view_len(self) == 0
    }

    /// The element at position `i`.
    pub fn get(&self, i: usize) -> (x: i64)
        requires
            i < self@.len(),
        ensures
            x == self@[i as int],
    {
        view_index(self, i)
    }

    /// The view of the first `index` elements and the view of the others.
    pub fn split_at(self, index: usize) -> (r: (Self, Self))
        requires
            index <= self@.len(),
        ensures
            r.0@ == self@.subrange(0, index as int),
            r.1@ == self@.subrange(index as int, self@.len() as int),
    {
        view_split_at(self, index)
    }
}

} // verus!
