use argminmax::scalar::scalar_argminmax;
use argminmax::simd::config::{AVX2, AVX512, NEON, SSE};
use argminmax::simd::generic::SIMDArgMinMax;
use rand::distributions::Uniform;
use rand::Rng;
use ndarray::Array1;

fn get_array_u8(n: usize) -> Array1<u8> {
    let rng = rand::thread_rng();
    let uni = Uniform::new_inclusive(u8::MIN, u8::MAX);
    let arr: Vec<u8> = rng.sample_iter(uni).take(n).collect();
    Array1::from(arr)
}

fn kernels(data: &[u8]) -> [(usize, usize); 4] {
    [
        <AVX2 as SIMDArgMinMax<u8>>::argminmax(data),
        <SSE as SIMDArgMinMax<u8>>::argminmax(data),
        <AVX512 as SIMDArgMinMax<u8>>::argminmax(data),
        <NEON as SIMDArgMinMax<u8>>::argminmax(data),
    ]
}

#[test]
fn simd_u8_test_both_versions_return_the_same_results() {
    for n in [65, 513] {
        let data = get_array_u8(n);
        assert_eq!(data.len() % 16, 1);
        let data = data.as_slice().unwrap();

        let (argmin_index, argmax_index) = scalar_argminmax(data);
        for (simd_argmin_index, simd_argmax_index) in kernels(data) {
            assert_eq!(argmin_index, simd_argmin_index);
            assert_eq!(argmax_index, simd_argmax_index);
        }
    }
}

#[test]
fn simd_u8_test_first_index_is_returned_when_identical_values_found() {
    let data = [10, std::u8::MIN, 6, 9, 9, 22, std::u8::MAX, 4, std::u8::MAX];
    let data: Vec<u8> = data.iter().map(|x| *x).collect();
    let data = Array1::from(data);
    let data = data.as_slice().unwrap();

    let (argmin_index, argmax_index) = scalar_argminmax(data);
    assert_eq!(argmin_index, 1);
    assert_eq!(argmax_index, 6);

    for (argmin_simd_index, argmax_simd_index) in kernels(data) {
        assert_eq!(argmin_simd_index, 1);
        assert_eq!(argmax_simd_index, 6);
    }
}

#[test]
fn simd_u8_test_no_overflow() {
    let n: usize = 1 << 10;
    let data = get_array_u8(n);
    let data = data.as_slice().unwrap();

    let (argmin_index, argmax_index) = scalar_argminmax(data);
    for (argmin_simd_index, argmax_simd_index) in kernels(data) {
        assert_eq!(argmin_index, argmin_simd_index);
        assert_eq!(argmax_index, argmax_simd_index);
    }
}

#[test]
fn simd_u8_test_many_random_runs() {
    for _ in 0..10_000 {
        let data = get_array_u8(32 * 2 + 1);
        let data = data.as_slice().unwrap();
        let (argmin_index, argmax_index) = scalar_argminmax(data);
        let (argmin_simd_index, argmax_simd_index) = AVX2::argminmax(data);
        assert_eq!(argmin_index, argmin_simd_index);
        assert_eq!(argmax_index, argmax_simd_index);
    }
}

#[test]
fn simd_u8_sse_test_many_random_runs() {
    for _ in 0..10_000 {
        let data = get_array_u8(32 * 2 + 1);
        let data = data.as_slice().unwrap();
        let (argmin_index, argmax_index) = scalar_argminmax(data);
        let (argmin_simd_index, argmax_simd_index) = SSE::argminmax(data);
        assert_eq!(argmin_index, argmin_simd_index);
        assert_eq!(argmax_index, argmax_simd_index);
    }
}

#[test]
fn simd_u8_avx512_test_many_random_runs() {
    for _ in 0..10_000 {
        let data = get_array_u8(32 * 4 + 1);
        let data = data.as_slice().unwrap();
        let (argmin_index, argmax_index) = scalar_argminmax(data);
        let (argmin_simd_index, argmax_simd_index) = AVX512::argminmax(data);
        assert_eq!(argmin_index, argmin_simd_index);
        assert_eq!(argmax_index, argmax_simd_index);
    }
}

#[test]
fn simd_u8_neon_test_many_random_runs() {
    for _ in 0..10_000 {
        let data = get_array_u8(32 * 2 + 1);
        let data = data.as_slice().unwrap();
        let (argmin_index, argmax_index) = scalar_argminmax(data);
        let (argmin_simd_index, argmax_simd_index) = NEON::argminmax(data);
        assert_eq!(argmin_index, argmin_simd_index);
        assert_eq!(argmax_index, argmax_simd_index);
    }
}

#[test]
fn monotonic_u8_modulo_128_of_length_100000() {
    let data: Vec<u8> = (0..100_000usize).map(|x| (x % 128) as u8).collect();
    assert_eq!(scalar_argminmax(&data), (0, 127));
    for result in kernels(&data) {
        assert_eq!(result, (0, 127));
    }
}

#[test]
fn lengths_that_straddle_a_segment() {
    for n in [1, 15, 16, 17, 63, 64, 65, 96, 112, 113, 126, 127, 128, 129, 255, 256, 257, 511, 512] {
        for _ in 0..50 {
            let data = get_array_u8(n);
            let data = data.as_slice().unwrap();
            let expected = scalar_argminmax(data);
            for result in kernels(data) {
                assert_eq!(result, expected);
            }
        }
    }
}

#[test]
fn extremes_behind_the_first_segment() {
    let mut data: Vec<u8> = vec![100; 1000];
    data[700] = 3;
    data[701] = 3;
    data[900] = 250;
    data[950] = 250;
    for result in kernels(&data) {
        assert_eq!(result, (700, 900));
    }
    let equal: Vec<u8> = vec![9; 1000];
    for result in kernels(&equal) {
        assert_eq!(result, (0, 0));
    }
}
