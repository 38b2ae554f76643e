use argminmax::scalar::scalar_argminmax;
use argminmax::simd::config::{AVX2, AVX512, SSE};
use argminmax::simd::generic::SIMDArgMinMax;
use rand::distributions::Uniform;
use rand::Rng;

fn get_array_u64(n: usize) -> Vec<u64> {
    let rng = rand::thread_rng();
    let uni = Uniform::new_inclusive(u64::MIN, u64::MAX);
    rng.sample_iter(uni).take(n).collect()
}

fn kernels(data: &[u64]) -> [(usize, usize); 3] {
    [
        <AVX2 as SIMDArgMinMax<u64>>::argminmax(data),
        <SSE as SIMDArgMinMax<u64>>::argminmax(data),
        <AVX512 as SIMDArgMinMax<u64>>::argminmax(data),
    ]
}

#[test]
fn simd_u64_test_both_versions_return_the_same_results() {
    let data = get_array_u64(1025);
    assert_eq!(data.len() % 16, 1);

    let (argmin_index, argmax_index) = scalar_argminmax(&data);
    for (simd_argmin_index, simd_argmax_index) in kernels(&data) {
        assert_eq!(argmin_index, simd_argmin_index);
        assert_eq!(argmax_index, simd_argmax_index);
    }
}

#[test]
fn simd_u64_test_first_index_is_returned_when_identical_values_found() {
    let data = [
        10,
        std::u64::MIN,
        6,
        9,
        9,
        22,
        std::u64::MAX,
        4,
        std::u64::MAX,
    ];
    let data: Vec<u64> = data.iter().map(|x| *x).collect();

    let (argmin_index, argmax_index) = scalar_argminmax(&data);
    assert_eq!(argmin_index, 1);
    assert_eq!(argmax_index, 6);

    for (argmin_simd_index, argmax_simd_index) in kernels(&data) {
        assert_eq!(argmin_simd_index, 1);
        assert_eq!(argmax_simd_index, 6);
    }
}

#[test]
fn simd_u64_test_many_random_runs() {
    for _ in 0..10_000 {
        let data = get_array_u64(32 * 8 + 1);
        let (argmin_index, argmax_index) = scalar_argminmax(&data);
        let (argmin_simd_index, argmax_simd_index) = AVX2::argminmax(&data);
        assert_eq!(argmin_index, argmin_simd_index);
        assert_eq!(argmax_index, argmax_simd_index);
    }
}

#[test]
fn simd_u64_sse_test_many_random_runs() {
    for _ in 0..10_000 {
        let data = get_array_u64(32 * 8 + 1);
        let (argmin_index, argmax_index) = scalar_argminmax(&data);
        let (argmin_simd_index, argmax_simd_index) = SSE::argminmax(&data);
        assert_eq!(argmin_index, argmin_simd_index);
        assert_eq!(argmax_index, argmax_simd_index);
    }
}

#[test]
fn simd_u64_avx512_test_many_random_runs() {
    for _ in 0..10_000 {
        let data = get_array_u64(1025);
        let (argmin_index, argmax_index) = scalar_argminmax(&data);
        let (argmin_simd_index, argmax_simd_index) = AVX512::argminmax(&data);
        assert_eq!(argmin_index, argmin_simd_index);
        assert_eq!(argmax_index, argmax_simd_index);
    }
}

#[test]
fn values_on_both_sides_of_the_top_bit() {
    let data: Vec<u64> = vec![1 << 63, (1 << 63) - 1, u64::MAX, 0, 5, 1 << 63, u64::MAX, 0, 9];
    assert_eq!(scalar_argminmax(&data), (3, 2));
    for result in kernels(&data) {
        assert_eq!(result, (3, 2));
    }
}
