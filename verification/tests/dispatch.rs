use argminmax::simd::config::{
    get_lane_size, min_feature, select_instruction_set, CpuFeatures, Feature, InstructionSet,
    SIMDInstructionSet, AVX2, AVX512, NEON, SSE,
};

#[test]
fn lanes_of_each_family_for_each_width() {
    assert_eq!(SSE::register_bits(), 128);
    assert_eq!(AVX2::register_bits(), 256);
    assert_eq!(AVX512::register_bits(), 512);
    assert_eq!(NEON::register_bits(), 128);
    assert_eq!(get_lane_size::<SSE>(8), 16);
    assert_eq!(get_lane_size::<SSE>(64), 2);
    assert_eq!(get_lane_size::<AVX2>(32), 8);
    assert_eq!(get_lane_size::<AVX2>(8), 32);
    assert_eq!(get_lane_size::<AVX512>(64), 8);
    assert_eq!(get_lane_size::<AVX512>(8), 64);
    assert_eq!(get_lane_size::<NEON>(16), 8);
}

#[test]
fn the_capability_that_each_kernel_needs() {
    assert_eq!(min_feature(InstructionSet::Scalar, 32), None);
    assert_eq!(min_feature(InstructionSet::Sse, 8), Some(Feature::Sse41));
    assert_eq!(min_feature(InstructionSet::Sse, 32), Some(Feature::Sse41));
    assert_eq!(min_feature(InstructionSet::Sse, 64), Some(Feature::Sse42));
    assert_eq!(min_feature(InstructionSet::Avx2, 64), Some(Feature::Avx2));
    assert_eq!(min_feature(InstructionSet::Avx512, 8), Some(Feature::Avx512bw));
    assert_eq!(min_feature(InstructionSet::Avx512, 16), Some(Feature::Avx512bw));
    assert_eq!(min_feature(InstructionSet::Avx512, 32), Some(Feature::Avx512f));
    assert_eq!(min_feature(InstructionSet::Neon, 32), Some(Feature::Neon));
    assert_eq!(min_feature(InstructionSet::Neon, 64), None);
}

#[test]
fn the_strongest_available_kernel_is_picked() {
    let none = CpuFeatures::none();
    for f in [
        Feature::Sse41,
        Feature::Sse42,
        Feature::Avx2,
        Feature::Avx512f,
        Feature::Avx512bw,
        Feature::Neon,
    ] {
        assert!(!none.has(f));
    }
    for w in [8, 16, 32, 64] {
        assert_eq!(select_instruction_set(&none, w), InstructionSet::Scalar);
    }
    let sse41 = CpuFeatures { sse4_1: true, ..none };
    assert!(sse41.has(Feature::Sse41));
    assert_eq!(select_instruction_set(&sse41, 8), InstructionSet::Sse);
    assert_eq!(select_instruction_set(&sse41, 32), InstructionSet::Sse);
    assert_eq!(select_instruction_set(&sse41, 64), InstructionSet::Scalar);
    let sse42 = CpuFeatures { sse4_2: true, ..sse41 };
    assert_eq!(select_instruction_set(&sse42, 64), InstructionSet::Sse);
    let avx2 = CpuFeatures { avx2: true, ..sse42 };
    assert_eq!(select_instruction_set(&avx2, 8), InstructionSet::Avx2);
    assert_eq!(select_instruction_set(&avx2, 64), InstructionSet::Avx2);
    let avx512f = CpuFeatures { avx512f: true, ..avx2 };
    assert_eq!(select_instruction_set(&avx512f, 8), InstructionSet::Avx2);
    assert_eq!(select_instruction_set(&avx512f, 16), InstructionSet::Avx2);
    assert_eq!(select_instruction_set(&avx512f, 32), InstructionSet::Avx512);
    assert_eq!(select_instruction_set(&avx512f, 64), InstructionSet::Avx512);
    let avx512bw = CpuFeatures { avx512bw: true, ..avx512f };
    assert_eq!(select_instruction_set(&avx512bw, 8), InstructionSet::Avx512);
    let neon = CpuFeatures { neon: true, ..none };
    assert_eq!(select_instruction_set(&neon, 8), InstructionSet::Neon);
    assert_eq!(select_instruction_set(&neon, 32), InstructionSet::Neon);
    assert_eq!(select_instruction_set(&neon, 64), InstructionSet::Scalar);
}
