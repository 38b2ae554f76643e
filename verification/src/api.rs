//! The operations for callers: `argminmax` and its two halves on a slice of
//! any element type that has kernels, and for the floating-point types the
//! same operations with the NaNs left out.
//!
//! An operation runs the strongest kernel that the processor allows. Which
//! capabilities the processor has is for the caller to find out and to hand
//! in.
use crate::element::{numbers, ords, Element, F16Bits, F32Bits, F64Bits, FloatElement};
use crate::extrema::{first_max_among, first_min_among, is_argmax, is_argmin};
use crate::simd::config::{
    select_instruction_set, CpuFeatures, InstructionSet, AVX2, AVX512, NEON, SCALAR, SSE,
};
use crate::simd::generic::SIMDArgMinMax;
use vstd::prelude::*;

verus! {

/// Why an operation has no result.
#[derive(Clone, Copy, Debug, PartialEq, Eq, Structural)]
pub enum ArgMinMaxError {
    /// The sequence has no element.
    EmptyInput,
    /// Every element of the sequence is a NaN, and NaNs were to be left out.
    AllNaN,
}

impl ArgMinMaxError {
    /// A sentence that says what went wrong.
    pub open spec fn message_spec(&self) -> Seq<char> {
        match self {
            ArgMinMaxError::EmptyInput => "the input is empty"@,
            ArgMinMaxError::AllNaN => "every element of the input is NaN"@,
        }
    }

    /// A sentence that says what went wrong.
    pub fn message(&self) -> (s: &'static str)
        ensures
            s@ == self.message_spec(),
    {
        match self {
            ArgMinMaxError::EmptyInput => "the input is empty",
            ArgMinMaxError::AllNaN => "every element of the input is NaN",
        }
    }
}

/// An element type with kernels: for each instruction family the traversal
/// of a slice of such elements.
pub trait Kernels: Element {
    /// The width of an element in bits.
    spec fn bits() -> nat;

    /// The width of an element in bits.
    fn width() -> (w: usize)
        ensures
            w == Self::bits(),
            w == 8 || w == 16 || w == 32 || w == 64,
    ;

    /// Runs the kernel of `set` on `data`, or the scalar pass where `set` is
    /// the scalar pass or a family without a kernel for this type.
    fn kernel(set: InstructionSet, data: &[Self]) -> (r: (usize, usize))
        requires
            data@.len() > 0,
        ensures
            is_argmin(ords(data@), r.0 as int),
            is_argmax(ords(data@), r.1 as int),
    ;
}

impl Kernels for i8 {
    open spec fn bits() -> nat {
        8
    }

    fn width() -> (w: usize) {
        8
    }

    fn kernel(set: InstructionSet, data: &[i8]) -> (r: (usize, usize)) {
        match set {
            InstructionSet::Scalar => SCALAR::argminmax(data),
            InstructionSet::Sse => <SSE as SIMDArgMinMax<i8>>::argminmax(data),
            InstructionSet::Avx2 => <AVX2 as SIMDArgMinMax<i8>>::argminmax(data),
            InstructionSet::Avx512 => <AVX512 as SIMDArgMinMax<i8>>::argminmax(data),
            InstructionSet::Neon => <NEON as SIMDArgMinMax<i8>>::argminmax(data),
        }
    }
}

impl Kernels for i16 {
    open spec fn bits() -> nat {
        16
    }

    fn width() -> (w: usize) {
        16
    }

    fn kernel(set: InstructionSet, data: &[i16]) -> (r: (usize, usize)) {
        match set {
            InstructionSet::Scalar => SCALAR::argminmax(data),
            InstructionSet::Sse => <SSE as SIMDArgMinMax<i16>>::argminmax(data),
            InstructionSet::Avx2 => <AVX2 as SIMDArgMinMax<i16>>::argminmax(data),
            InstructionSet::Avx512 => <AVX512 as SIMDArgMinMax<i16>>::argminmax(data),
            InstructionSet::Neon => <NEON as SIMDArgMinMax<i16>>::argminmax(data),
        }
    }
}

impl Kernels for i32 {
    open spec fn bits() -> nat {
        32
    }

    fn width() -> (w: usize) {
        32
    }

    fn kernel(set: InstructionSet, data: &[i32]) -> (r: (usize, usize)) {
        match set {
            InstructionSet::Scalar => SCALAR::argminmax(data),
            InstructionSet::Sse => <SSE as SIMDArgMinMax<i32>>::argminmax(data),
            InstructionSet::Avx2 => <AVX2 as SIMDArgMinMax<i32>>::argminmax(data),
            InstructionSet::Avx512 => <AVX512 as SIMDArgMinMax<i32>>::argminmax(data),
            InstructionSet::Neon => <NEON as SIMDArgMinMax<i32>>::argminmax(data),
        }
    }
}

impl Kernels for i64 {
    open spec fn bits() -> nat {
        64
    }

    fn width() -> (w: usize) {
        64
    }

    fn kernel(set: InstructionSet, data: &[i64]) -> (r: (usize, usize)) {
        match set {
            InstructionSet::Scalar => SCALAR::argminmax(data),
            InstructionSet::Sse => <SSE as SIMDArgMinMax<i64>>::argminmax(data),
            InstructionSet::Avx2 => <AVX2 as SIMDArgMinMax<i64>>::argminmax(data),
            InstructionSet::Avx512 => <AVX512 as SIMDArgMinMax<i64>>::argminmax(data),
            // The family of ARM has no kernel for this width.
            InstructionSet::Neon => SCALAR::argminmax(data),
        }
    }
}

impl Kernels for u8 {
    open spec fn bits() -> nat {
        8
    }

    fn width() -> (w: usize) {
        8
    }

    fn kernel(set: InstructionSet, data: &[u8]) -> (r: (usize, usize)) {
        match set {
            InstructionSet::Scalar => SCALAR::argminmax(data),
            InstructionSet::Sse => <SSE as SIMDArgMinMax<u8>>::argminmax(data),
            InstructionSet::Avx2 => <AVX2 as SIMDArgMinMax<u8>>::argminmax(data),
            InstructionSet::Avx512 => <AVX512 as SIMDArgMinMax<u8>>::argminmax(data),
            InstructionSet::Neon => <NEON as SIMDArgMinMax<u8>>::argminmax(data),
        }
    }
}

impl Kernels for u16 {
    open spec fn bits() -> nat {
        16
    }

    fn width() -> (w: usize) {
        16
    }

    fn kernel(set: InstructionSet, data: &[u16]) -> (r: (usize, usize)) {
        match set {
            InstructionSet::Scalar => SCALAR::argminmax(data),
            InstructionSet::Sse => <SSE as SIMDArgMinMax<u16>>::argminmax(data),
            InstructionSet::Avx2 => <AVX2 as SIMDArgMinMax<u16>>::argminmax(data),
            InstructionSet::Avx512 => <AVX512 as SIMDArgMinMax<u16>>::argminmax(data),
            InstructionSet::Neon => <NEON as SIMDArgMinMax<u16>>::argminmax(data),
        }
    }
}

impl Kernels for u32 {
    open spec fn bits() -> nat {
        32
    }

    fn width() -> (w: usize) {
        32
    }

    fn kernel(set: InstructionSet, data: &[u32]) -> (r: (usize, usize)) {
        match set {
            InstructionSet::Scalar => SCALAR::argminmax(data),
            InstructionSet::Sse => <SSE as SIMDArgMinMax<u32>>::argminmax(data),
            InstructionSet::Avx2 => <AVX2 as SIMDArgMinMax<u32>>::argminmax(data),
            InstructionSet::Avx512 => <AVX512 as SIMDArgMinMax<u32>>::argminmax(data),
            InstructionSet::Neon => <NEON as SIMDArgMinMax<u32>>::argminmax(data),
        }
    }
}

impl Kernels for u64 {
    open spec fn bits() -> nat {
        64
    }

    fn width() -> (w: usize) {
        64
    }

    fn kernel(set: InstructionSet, data: &[u64]) -> (r: (usize, usize)) {
        match set {
            InstructionSet::Scalar => SCALAR::argminmax(data),
            InstructionSet::Sse => <SSE as SIMDArgMinMax<u64>>::argminmax(data),
            InstructionSet::Avx2 => <AVX2 as SIMDArgMinMax<u64>>::argminmax(data),
            InstructionSet::Avx512 => <AVX512 as SIMDArgMinMax<u64>>::argminmax(data),
            // The family of ARM has no kernel for this width.
            InstructionSet::Neon => SCALAR::argminmax(data),
        }
    }
}

impl Kernels for F16Bits {
    open spec fn bits() -> nat {
        16
    }

    fn width() -> (w: usize) {
        16
    }

    fn kernel(set: InstructionSet, data: &[F16Bits]) -> (r: (usize, usize)) {
        match set {
            InstructionSet::Scalar => SCALAR::argminmax(data),
            InstructionSet::Sse => <SSE as SIMDArgMinMax<F16Bits>>::argminmax(data),
            InstructionSet::Avx2 => <AVX2 as SIMDArgMinMax<F16Bits>>::argminmax(data),
            InstructionSet::Avx512 => <AVX512 as SIMDArgMinMax<F16Bits>>::argminmax(data),
            // The family of ARM has no kernel for 16-bit floats.
            InstructionSet::Neon => SCALAR::argminmax(data),
        }
    }
}

impl Kernels for F32Bits {
    open spec fn bits() -> nat {
        32
    }

    fn width() -> (w: usize) {
        32
    }

    fn kernel(set: InstructionSet, data: &[F32Bits]) -> (r: (usize, usize)) {
        match set {
            InstructionSet::Scalar => SCALAR::argminmax(data),
            InstructionSet::Sse => <SSE as SIMDArgMinMax<F32Bits>>::argminmax(data),
            InstructionSet::Avx2 => <AVX2 as SIMDArgMinMax<F32Bits>>::argminmax(data),
            InstructionSet::Avx512 => <AVX512 as SIMDArgMinMax<F32Bits>>::argminmax(data),
            InstructionSet::Neon => <NEON as SIMDArgMinMax<F32Bits>>::argminmax(data),
        }
    }
}

impl Kernels for F64Bits {
    open spec fn bits() -> nat {
        64
    }

    fn width() -> (w: usize) {
        64
    }

    fn kernel(set: InstructionSet, data: &[F64Bits]) -> (r: (usize, usize)) {
        match set {
            InstructionSet::Scalar => SCALAR::argminmax(data),
            InstructionSet::Sse => <SSE as SIMDArgMinMax<F64Bits>>::argminmax(data),
            InstructionSet::Avx2 => <AVX2 as SIMDArgMinMax<F64Bits>>::argminmax(data),
            InstructionSet::Avx512 => <AVX512 as SIMDArgMinMax<F64Bits>>::argminmax(data),
            // The family of ARM has no kernel for this width.
            InstructionSet::Neon => SCALAR::argminmax(data),
        }
    }
}

/// Returns the positions of the first smallest and of the first largest
/// element of `data`, found by the strongest kernel that `features` allows.
///
/// For a floating-point type a NaN is a value like any other, at one end of
/// the order: a NaN with a clear sign bit is the largest value.
pub fn argminmax<T: Kernels>(data: &[T], features: &CpuFeatures) -> (r: Result<
    (usize, usize),
    ArgMinMaxError,
>)
    ensures
        data@.len() == 0 <==> r is Err,
        r is Err ==> r == Err::<(usize, usize), ArgMinMaxError>(ArgMinMaxError::EmptyInput),
        r matches Ok(p) ==> is_argmin(ords(data@), p.0 as int) && is_argmax(
            ords(data@),
            p.1 as int,
        ),
{
    if data.len() == 0 {
        return Err(ArgMinMaxError::EmptyInput);
    }
    let set: InstructionSet = select_instruction_set(features, T::width());
    Ok(T::kernel(set, data))
}

/// Returns the position of the first smallest element of `data`.
pub fn argmin<T: Kernels>(data: &[T], features: &CpuFeatures) -> (r: Result<usize, ArgMinMaxError>)
    ensures
        data@.len() == 0 <==> r is Err,
        r is Err ==> r == Err::<usize, ArgMinMaxError>(ArgMinMaxError::EmptyInput),
        r matches Ok(i) ==> is_argmin(ords(data@), i as int),
{
    match argminmax(data, features) {
        Ok(p) => Ok(p.0),
        Err(e) => Err(e),
    }
}

/// Returns the position of the first largest element of `data`.
pub fn argmax<T: Kernels>(data: &[T], features: &CpuFeatures) -> (r: Result<usize, ArgMinMaxError>)
    ensures
        data@.len() == 0 <==> r is Err,
        r is Err ==> r == Err::<usize, ArgMinMaxError>(ArgMinMaxError::EmptyInput),
        r matches Ok(i) ==> is_argmax(ords(data@), i as int),
{
    match argminmax(data, features) {
        Ok(p) => Ok(p.1),
        Err(e) => Err(e),
    }
}

/// Every value is a NaN.
pub open spec fn all_nan<T: FloatElement>(s: Seq<T>) -> bool {
    forall|j: int| 0 <= j < s.len() ==> (#[trigger] s[j]).nan()
}

/// What the operations that leave out the NaNs return for `data`: the error
/// for an empty input, the error for an input of NaNs only, and else the
/// positions of the first smallest and of the first largest number.
pub open spec fn nan_result_ok<T: FloatElement>(
    s: Seq<T>,
    r: Result<(usize, usize), ArgMinMaxError>,
) -> bool {
    match r {
        Err(ArgMinMaxError::EmptyInput) => s.len() == 0,
        Err(ArgMinMaxError::AllNaN) => s.len() > 0 && all_nan(s),
        Ok(p) => first_min_among(ords(s), numbers(s), p.0 as int) && first_max_among(
            ords(s),
            numbers(s),
            p.1 as int,
        ),
    }
}

/// The scalar pass that leaves out the NaNs.
pub fn scalar_nanargminmax<T: FloatElement>(data: &[T]) -> (r: Result<
    (usize, usize),
    ArgMinMaxError,
>)
    ensures
        nan_result_ok(data@, r),
{
    let n: usize = data.len();
    if n == 0 {
        return Err(ArgMinMaxError::EmptyInput);
    }
    let ghost keys = ords(data@);
    let ghost keep = numbers(data@);
    let mut found: bool = false;
    let mut low_index: usize = 0;
    let mut high_index: usize = 0;
    let mut i: usize = 0;
    while i < n
        invariant
            n == data@.len(),
            keys == ords(data@),
            keep == numbers(data@),
            i <= n,
            !found ==> forall|j: int| 0 <= j < i ==> !#[trigger] keep[j],
            found ==> low_index < i && high_index < i && keep[low_index as int]
                && keep[high_index as int],
            found ==> forall|j: int|
                0 <= j < i && keep[j] ==> keys[low_index as int] <= #[trigger] keys[j],
            found ==> forall|j: int|
                0 <= j < low_index && keep[j] ==> keys[low_index as int] < #[trigger] keys[j],
            found ==> forall|j: int|
                0 <= j < i && keep[j] ==> keys[high_index as int] >= #[trigger] keys[j],
            found ==> forall|j: int|
                0 <= j < high_index && keep[j] ==> keys[high_index as int] > #[trigger] keys[j],
        decreases n - i,
    {
        let item: T = data[i];
        assert(keys[i as int] == item.ord());
        assert(keep[i as int] == !item.nan());
        if !item.is_nan() {
            if !found {
                found = true;
                low_index = i;
                high_index = i;
            } else {
                assert(keys[low_index as int] == data@[low_index as int].ord());
                assert(keys[high_index as int] == data@[high_index as int].ord());
                if item.less(data[low_index]) {
                    low_index = i;
                } else if data[high_index].less(item) {
                    high_index = i;
                }
            }
        }
        i += 1;
    }
    if found {
        Ok((low_index, high_index))
    } else {
        proof {
            assert forall|j: int| 0 <= j < data@.len() implies (#[trigger] data@[j]).nan() by {
                assert(!keep[j]);
            }
        }
        Err(ArgMinMaxError::AllNaN)
    }
}

/// Where neither the smallest nor the largest value is a NaN, no value is.
pub proof fn lemma_no_nan_at_the_ends<T: FloatElement>(s: Seq<T>, argmin: int, argmax: int)
    requires
        is_argmin(ords(s), argmin),
        is_argmax(ords(s), argmax),
        !s[argmin].nan(),
        !s[argmax].nan(),
    ensures
        forall|j: int| 0 <= j < s.len() ==> !(#[trigger] s[j]).nan(),
{
    let keys = ords(s);
    T::lemma_nan_keys(s[argmin]);
    T::lemma_nan_keys(s[argmax]);
    assert forall|j: int| 0 <= j < s.len() implies !(#[trigger] s[j]).nan() by {
        T::lemma_nan_keys(s[j]);
        assert(keys[argmin] <= keys[j] <= keys[argmax]);
    }
}

/// A NaN in the sequence is returned: the largest value is a NaN where some
/// value is a NaN with a clear sign bit, and the smallest value is one where
/// some value is a NaN with a set sign bit.
pub proof fn lemma_nan_is_returned<T: FloatElement>(s: Seq<T>, argmin: int, argmax: int, j: int)
    requires
        is_argmin(ords(s), argmin),
        is_argmax(ords(s), argmax),
        0 <= j < s.len(),
        s[j].nan(),
    ensures
        s[argmax].nan() || s[argmin].nan(),
        s[j].ord() > T::highest_number() ==> s[argmax].nan(),
        s[j].ord() < T::lowest_number() ==> s[argmin].nan(),
{
    let keys = ords(s);
    T::lemma_nan_keys(s[j]);
    T::lemma_nan_keys(s[argmin]);
    T::lemma_nan_keys(s[argmax]);
    assert(keys[argmin] <= keys[j] <= keys[argmax]);
}

/// Where the largest value is a NaN with a clear sign bit and all NaNs of the
/// sequence have one and the same bit pattern, the argmax is the position of
/// the first NaN.
pub proof fn lemma_first_nan_is_argmax<T: FloatElement>(s: Seq<T>, argmax: int)
    requires
        is_argmax(ords(s), argmax),
        s[argmax].nan(),
        forall|j: int| 0 <= j < s.len() && (#[trigger] s[j]).nan() ==> s[j] == s[argmax],
    ensures
        forall|j: int| 0 <= j < argmax ==> !(#[trigger] s[j]).nan(),
{
    let keys = ords(s);
    assert forall|j: int| 0 <= j < argmax implies !(#[trigger] s[j]).nan() by {
        assert(keys[argmax] > keys[j]);
    }
}

/// Returns the positions of the first smallest and of the first largest
/// element of `data` that is not a NaN.
///
/// The kernel runs first. A NaN lies at one end of the order, so where the
/// kernel returns no NaN there is none, and its result stands. Else the
/// scalar pass that leaves out the NaNs decides.
pub fn nanargminmax<T: Kernels + FloatElement>(data: &[T], features: &CpuFeatures) -> (r: Result<
    (usize, usize),
    ArgMinMaxError,
>)
    ensures
        nan_result_ok(data@, r),
{
    if data.len() == 0 {
        return Err(ArgMinMaxError::EmptyInput);
    }
    let set: InstructionSet = select_instruction_set(features, T::width());
    let (min_index, max_index) = T::kernel(set, data);
    if !data[min_index].is_nan() && !data[max_index].is_nan() {
        proof {
            lemma_no_nan_at_the_ends(data@, min_index as int, max_index as int);
            crate::extrema::lemma_among_all(ords(data@), numbers(data@), min_index as int);
            crate::extrema::lemma_among_all(ords(data@), numbers(data@), max_index as int);
        }
        return Ok((min_index, max_index));
    }
    scalar_nanargminmax(data)
}

/// Returns the position of the first smallest element of `data` that is not
/// a NaN.
pub fn nanargmin<T: Kernels + FloatElement>(data: &[T], features: &CpuFeatures) -> (r: Result<
    usize,
    ArgMinMaxError,
>)
    ensures
        match r {
            Err(ArgMinMaxError::EmptyInput) => data@.len() == 0,
            Err(ArgMinMaxError::AllNaN) => data@.len() > 0 && all_nan(data@),
            Ok(i) => first_min_among(ords(data@), numbers(data@), i as int),
        },
{
    match nanargminmax(data, features) {
        Ok(p) => Ok(p.0),
        Err(e) => Err(e),
    }
}

/// Returns the position of the first largest element of `data` that is not a
/// NaN.
pub fn nanargmax<T: Kernels + FloatElement>(data: &[T], features: &CpuFeatures) -> (r: Result<
    usize,
    ArgMinMaxError,
>)
    ensures
        match r {
            Err(ArgMinMaxError::EmptyInput) => data@.len() == 0,
            Err(ArgMinMaxError::AllNaN) => data@.len() > 0 && all_nan(data@),
            Ok(i) => first_max_among(ords(data@), numbers(data@), i as int),
        },
{
    match nanargminmax(data, features) {
        Ok(p) => Ok(p.1),
        Err(e) => Err(e),
    }
}

} // verus!
