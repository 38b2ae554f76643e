//! The instruction families.
//!
//! A family fixes the width of its registers. The number of lanes of a
//! register follows from that width and from the width of an element.
use vstd::prelude::*;

verus! {

/// An instruction family, described by the width of its registers.
pub trait SIMDInstructionSet {
    /// The width of a register in bits.
    spec fn register_size() -> nat;

    /// The width of a register in bits.
    fn register_bits() -> (r: usize)
        ensures
            r == Self::register_size(),
            r == 128 || r == 256 || r == 512,
    ;
}

/// The number of lanes of `width` bits in a register of `register_size` bits.
pub open spec fn lane_size_of(register_size: nat, width: nat) -> nat {
    register_size / width
}

/// The number of lanes that a register of the family `S` has for elements of
/// `width` bits.
pub fn get_lane_size<S: SIMDInstructionSet>(width: usize) -> (l: usize)
    requires
        width == 8 || width == 16 || width == 32 || width == 64,
    ensures
        l == lane_size_of(S::register_size(), width as nat),
        l > 0,
{
    S::register_bits() / width
}

/// The scalar fallback: no registers, one element at a time.
pub struct SCALAR;

/// The 128-bit family of x86.
pub struct SSE;

/// The 256-bit family of x86.
pub struct AVX2;

/// The 512-bit family of x86. Its comparisons give one bit for each lane.
pub struct AVX512;

/// The 128-bit family of ARM.
pub struct NEON;

impl SIMDInstructionSet for SSE {
    open spec fn register_size() -> nat {
        128
    }

    fn register_bits() -> (r: usize) {
        128
    }
}

impl SIMDInstructionSet for AVX2 {
    open spec fn register_size() -> nat {
        256
    }

    fn register_bits() -> (r: usize) {
        256
    }
}

impl SIMDInstructionSet for AVX512 {
    open spec fn register_size() -> nat {
        512
    }

    fn register_bits() -> (r: usize) {
        512
    }
}

impl SIMDInstructionSet for NEON {
    open spec fn register_size() -> nat {
        128
    }

    fn register_bits() -> (r: usize) {
        128
    }
}


/// A capability of the processor that a kernel needs before it may run.
#[derive(Clone, Copy, Debug, PartialEq, Eq, Structural)]
pub enum Feature {
    /// 128-bit registers with the lane-wise operations on 8, 16 and 32 bits.
    Sse41,
    /// 128-bit registers with the comparison of 64-bit lanes.
    Sse42,
    /// 256-bit registers.
    Avx2,
    /// 512-bit registers with the operations on 32 and 64 bits.
    Avx512f,
    /// 512-bit registers with the operations on 8 and 16 bits.
    Avx512bw,
    /// The 128-bit registers of ARM.
    Neon,
}

/// The capabilities that were found on the processor.
#[derive(Clone, Copy, Debug, PartialEq, Eq, Structural)]
pub struct CpuFeatures {
    pub sse4_1: bool,
    pub sse4_2: bool,
    pub avx2: bool,
    pub avx512f: bool,
    pub avx512bw: bool,
    pub neon: bool,
}

impl CpuFeatures {
    /// Whether the processor has the capability `f`.
    pub open spec fn has_spec(&self, f: Feature) -> bool {
        match f {
            Feature::Sse41 => self.sse4_1,
            Feature::Sse42 => self.sse4_2,
            Feature::Avx2 => self.avx2,
            Feature::Avx512f => self.avx512f,
            Feature::Avx512bw => self.avx512bw,
            Feature::Neon => self.neon,
        }
    }

    /// Whether the processor has the capability `f`.
    #[verifier::when_used_as_spec(has_spec)]
    pub fn has(&self, f: Feature) -> (r: bool)
        ensures
            r == self.has_spec(f),
    {
        match f {
            Feature::Sse41 => self.sse4_1,
            Feature::Sse42 => self.sse4_2,
            Feature::Avx2 => self.avx2,
            Feature::Avx512f => self.avx512f,
            Feature::Avx512bw => self.avx512bw,
            Feature::Neon => self.neon,
        }
    }

    /// A processor without any of the capabilities: only the scalar pass runs
    /// on it.
    pub fn none() -> (r: Self)
        ensures
            forall|f: Feature| !r.has_spec(f),
    {
        CpuFeatures {
            sse4_1: false,
            sse4_2: false,
            avx2: false,
            avx512f: false,
            avx512bw: false,
            neon: false,
        }
    }
}

/// How a sequence is traversed: by the scalar pass or by the kernel of one
/// instruction family.
#[derive(Clone, Copy, Debug, PartialEq, Eq, Structural)]
pub enum InstructionSet {
    Scalar,
    Sse,
    Avx2,
    Avx512,
    Neon,
}

/// The capability that the kernel of a family needs for elements of `width`
/// bits, or `None` where the family has no kernel for that width.
///
/// The 128-bit family of x86 compares 64-bit lanes only with a later
/// extension. The 512-bit family needs an extension of its own for lanes of 8
/// and 16 bits. The family of ARM has no kernel for 64 bits. The scalar pass
/// needs nothing and is not a kernel.
pub open spec fn min_feature_spec(set: InstructionSet, width: nat) -> Option<Feature> {
    match set {
        InstructionSet::Scalar => None,
        InstructionSet::Sse => if width == 64 {
            Some(Feature::Sse42)
        } else {
            Some(Feature::Sse41)
        },
        InstructionSet::Avx2 => Some(Feature::Avx2),
        InstructionSet::Avx512 => if width <= 16 {
            Some(Feature::Avx512bw)
        } else {
            Some(Feature::Avx512f)
        },
        InstructionSet::Neon => if width == 64 {
            None
        } else {
            Some(Feature::Neon)
        },
    }
}

/// The capability that the kernel of a family needs for elements of `width`
/// bits, or `None` where the family has no kernel for that width.
pub fn min_feature(set: InstructionSet, width: usize) -> (r: Option<Feature>)
    ensures
        r == min_feature_spec(set, width as nat),
{
    match set {
        InstructionSet::Scalar => None,
        InstructionSet::Sse => if width == 64 {
            Some(Feature::Sse42)
        } else {
            Some(Feature::Sse41)
        },
        InstructionSet::Avx2 => Some(Feature::Avx2),
        InstructionSet::Avx512 => if width <= 16 {
            Some(Feature::Avx512bw)
        } else {
            Some(Feature::Avx512f)
        },
        InstructionSet::Neon => if width == 64 {
            None
        } else {
            Some(Feature::Neon)
        },
    }
}

/// Whether the kernel of `set` for elements of `width` bits exists and may
/// run on a processor with `features`.
pub open spec fn available(features: CpuFeatures, set: InstructionSet, width: nat) -> bool {
    min_feature_spec(set, width) matches Some(f) && features.has_spec(f)
}

/// The family with the widest registers whose kernel is available, and the
/// scalar pass where none is.
pub open spec fn strongest(features: CpuFeatures, width: nat) -> InstructionSet {
    if available(features, InstructionSet::Avx512, width) {
        InstructionSet::Avx512
    } else if available(features, InstructionSet::Avx2, width) {
        InstructionSet::Avx2
    } else if available(features, InstructionSet::Sse, width) {
        InstructionSet::Sse
    } else if available(features, InstructionSet::Neon, width) {
        InstructionSet::Neon
    } else {
        InstructionSet::Scalar
    }
}

/// Whether the kernel of `set` for elements of `width` bits exists and may
/// run on a processor with `features`.
fn is_available(features: &CpuFeatures, set: InstructionSet, width: usize) -> (r: bool)
    ensures
        r == available(*features, set, width as nat),
{
    match min_feature(set, width) {
        Some(f) => features.has(f),
        None => false,
    }
}

/// Picks how elements of `width` bits are traversed on a processor with
/// `features`: by the strongest kernel that is available. A kernel is never
/// picked without the capability that it needs.
pub fn select_instruction_set(features: &CpuFeatures, width: usize) -> (r: InstructionSet)
    ensures
        r == strongest(*features, width as nat),
        r != InstructionSet::Scalar ==> available(*features, r, width as nat),
{
    if is_available(features, InstructionSet::Avx512, width) {
        InstructionSet::Avx512
    } else if is_available(features, InstructionSet::Avx2, width) {
        InstructionSet::Avx2
    } else if is_available(features, InstructionSet::Sse, width) {
        InstructionSet::Sse
    } else if is_available(features, InstructionSet::Neon, width) {
        InstructionSet::Neon
    } else {
        InstructionSet::Scalar
    }
}

} // verus!
