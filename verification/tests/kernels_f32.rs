use argminmax::scalar::scalar_argminmax;
use argminmax::simd::config::{AVX2, AVX512, NEON, SSE};
use argminmax::simd::generic::SIMDArgMinMax;
use argminmax::element::{F32Bits, FloatElement};
use rand::Rng;

fn to_bits(data: &[f32]) -> Vec<F32Bits> {
    data.iter().map(|x| F32Bits::new(x.to_bits())).collect()
}

fn get_array_f32(n: usize) -> Vec<F32Bits> {
    // One seed from the generator, then a xorshift, which is quick enough
    // for 2^25 values: floats spread over the whole range of the numbers.
    let mut state: u64 = rand::thread_rng().gen::<u64>() | 1;
    let mut data: Vec<F32Bits> = Vec::with_capacity(n);
    for _ in 0..n {
        state ^= state << 13;
        state ^= state >> 7;
        state ^= state << 17;
        let unit = (state >> 40) as f32 / (1u64 << 24) as f32;
        data.push(F32Bits::new(((unit * 2.0 - 1.0) * f32::MAX).to_bits()));
    }
    data
}

fn first_index_data() -> Vec<F32Bits> {
    let data = [
        10.,
        std::f32::MAX,
        6.,
        std::f32::NEG_INFINITY,
        std::f32::NEG_INFINITY,
        std::f32::MAX,
        10_000.0,
    ];
    let data: Vec<f32> = data.iter().map(|x| *x).collect();
    to_bits(&data)
}

fn kernels(data: &[F32Bits]) -> [(usize, usize); 4] {
    [
        <AVX2 as SIMDArgMinMax<F32Bits>>::argminmax(data),
        <SSE as SIMDArgMinMax<F32Bits>>::argminmax(data),
        <AVX512 as SIMDArgMinMax<F32Bits>>::argminmax(data),
        <NEON as SIMDArgMinMax<F32Bits>>::argminmax(data),
    ]
}

#[test]
fn simd_f32_test_both_versions_return_the_same_results() {
    let data = get_array_f32(1025);
    assert_eq!(data.len() % 8, 1);
    assert_eq!(data.len() % 4, 1);
    assert_eq!(data.len() % 16, 1);

    let (argmin_index, argmax_index) = scalar_argminmax(&data);
    for (argmin_simd_index, argmax_simd_index) in kernels(&data) {
        assert_eq!(argmin_index, argmin_simd_index);
        assert_eq!(argmax_index, argmax_simd_index);
    }
}

#[test]
fn simd_f32_test_first_index_is_returned_when_identical_values_found() {
    let data = first_index_data();

    let (argmin_index, argmax_index) = scalar_argminmax(&data);
    assert_eq!(argmin_index, 3);
    assert_eq!(argmax_index, 1);

    for (argmin_simd_index, argmax_simd_index) in kernels(&data) {
        assert_eq!(argmin_simd_index, 3);
        assert_eq!(argmax_simd_index, 1);
    }
}

#[test]
fn simd_f32_test_no_overflow() {
    let n: usize = 1 << 25;
    let data = get_array_f32(n);

    let (argmin_index, argmax_index) = scalar_argminmax(&data);
    let (argmin_simd_index, argmax_simd_index) = AVX2::argminmax(&data);
    assert_eq!(argmin_index, argmin_simd_index);
    assert_eq!(argmax_index, argmax_simd_index);
}

#[test]
fn simd_f32_sse_test_no_overflow() {
    let n: usize = 1 << 25;
    let data = get_array_f32(n);

    let (argmin_index, argmax_index) = scalar_argminmax(&data);
    let (argmin_simd_index, argmax_simd_index) = SSE::argminmax(&data);
    assert_eq!(argmin_index, argmin_simd_index);
    assert_eq!(argmax_index, argmax_simd_index);
}

#[test]
fn simd_f32_avx512_test_no_overflow() {
    let n: usize = 1 << 25;
    let data = get_array_f32(n);

    let (argmin_index, argmax_index) = scalar_argminmax(&data);
    let (argmin_simd_index, argmax_simd_index) = AVX512::argminmax(&data);
    assert_eq!(argmin_index, argmin_simd_index);
    assert_eq!(argmax_index, argmax_simd_index);
}

#[test]
fn simd_f32_neon_test_no_overflow() {
    let n: usize = 1 << 25;
    let data = get_array_f32(n);

    let (argmin_index, argmax_index) = scalar_argminmax(&data);
    let (argmin_simd_index, argmax_simd_index) = NEON::argminmax(&data);
    assert_eq!(argmin_index, argmin_simd_index);
    assert_eq!(argmax_index, argmax_simd_index);
}

#[test]
fn simd_f32_test_many_random_runs() {
    for _ in 0..10_000 {
        let data = get_array_f32(32 * 8 + 1);
        let (argmin_index, argmax_index) = scalar_argminmax(&data);
        let (argmin_simd_index, argmax_simd_index) = AVX2::argminmax(&data);
        assert_eq!(argmin_index, argmin_simd_index);
        assert_eq!(argmax_index, argmax_simd_index);
    }
}

#[test]
fn simd_f32_sse_test_many_random_runs() {
    for _ in 0..10_000 {
        let data = get_array_f32(32 * 4 + 1);
        let (argmin_index, argmax_index) = scalar_argminmax(&data);
        let (argmin_simd_index, argmax_simd_index) = SSE::argminmax(&data);
        assert_eq!(argmin_index, argmin_simd_index);
        assert_eq!(argmax_index, argmax_simd_index);
    }
}

#[test]
fn simd_f32_avx512_test_many_random_runs() {
    for _ in 0..10_000 {
        let data = get_array_f32(32 * 16 + 1);
        let (argmin_index, argmax_index) = scalar_argminmax(&data);
        let (argmin_simd_index, argmax_simd_index) = AVX512::argminmax(&data);
        assert_eq!(argmin_index, argmin_simd_index);
        assert_eq!(argmax_index, argmax_simd_index);
    }
}

#[test]
fn simd_f32_neon_test_many_random_runs() {
    for _ in 0..10_000 {
        let data = get_array_f32(32 * 4 + 1);
        let (argmin_index, argmax_index) = scalar_argminmax(&data);
        let (argmin_simd_index, argmax_simd_index) = NEON::argminmax(&data);
        assert_eq!(argmin_index, argmin_simd_index);
        assert_eq!(argmax_index, argmax_simd_index);
    }
}

#[test]
fn positive_nan_is_the_argmax() {
    let mut data: Vec<f32> = (0..100).map(|x| x as f32).collect();
    data[37] = f32::NAN;
    data[64] = f32::NAN;
    let data = to_bits(&data);
    assert!(data[37].is_nan());
    assert!(!data[36].is_nan());
    assert_eq!(scalar_argminmax(&data), (0, 37));
    for result in kernels(&data) {
        assert_eq!(result, (0, 37));
    }
}

#[test]
fn negative_nan_is_the_argmin() {
    let mut data: Vec<f32> = (0..100).map(|x| x as f32 - 50.0).collect();
    data[81] = -f32::NAN;
    let data = to_bits(&data);
    assert!(data[81].is_nan());
    for result in kernels(&data) {
        assert_eq!(result, (81, 99));
    }
}

#[test]
fn negative_zero_comes_before_positive_zero() {
    let data = to_bits(&[0.0, -0.0, 0.0, -0.0]);
    assert_eq!(scalar_argminmax(&data), (1, 0));
    for result in kernels(&data) {
        assert_eq!(result, (1, 0));
    }
}
