use argminmax::scalar::scalar_argminmax;
use argminmax::simd::config::{AVX2, AVX512, NEON, SCALAR, SSE};
use argminmax::simd::generic::SIMDArgMinMax;
use rand::distributions::Uniform;
use rand::Rng;

fn get_array_i32(n: usize) -> Vec<i32> {
    let rng = rand::thread_rng();
    let uni = Uniform::new_inclusive(i32::MIN, i32::MAX);
    rng.sample_iter(uni).take(n).collect()
}

fn kernels(data: &[i32]) -> [(usize, usize); 4] {
    [
        <AVX2 as SIMDArgMinMax<i32>>::argminmax(data),
        <SSE as SIMDArgMinMax<i32>>::argminmax(data),
        <AVX512 as SIMDArgMinMax<i32>>::argminmax(data),
        <NEON as SIMDArgMinMax<i32>>::argminmax(data),
    ]
}

#[test]
fn simd_i32_test_both_versions_return_the_same_results() {
    let data = get_array_i32(1025);
    assert_eq!(data.len() % 8, 1);
    assert_eq!(data.len() % 4, 1);

    let (argmin_index, argmax_index) = scalar_argminmax(&data);
    for (argmin_simd_index, argmax_simd_index) in kernels(&data) {
        assert_eq!(argmin_index, argmin_simd_index);
        assert_eq!(argmax_index, argmax_simd_index);
    }
}

#[test]
fn simd_i32_test_first_index_is_returned_when_identical_values_found() {
    let data = [
        std::i32::MIN,
        std::i32::MIN,
        4,
        6,
        9,
        std::i32::MAX,
        22,
        std::i32::MAX,
    ];
    let data: Vec<i32> = data.iter().map(|x| *x).collect();

    let (argmin_index, argmax_index) = scalar_argminmax(&data);
    assert_eq!(argmin_index, 0);
    assert_eq!(argmax_index, 5);

    for (argmin_simd_index, argmax_simd_index) in kernels(&data) {
        assert_eq!(argmin_simd_index, 0);
        assert_eq!(argmax_simd_index, 5);
    }
}

#[test]
fn simd_i32_test_many_random_runs() {
    for _ in 0..10_000 {
        let data = get_array_i32(32 * 8 + 1);
        let (argmin_index, argmax_index) = scalar_argminmax(&data);
        let (argmin_simd_index, argmax_simd_index) = AVX2::argminmax(&data);
        assert_eq!(argmin_index, argmin_simd_index);
        assert_eq!(argmax_index, argmax_simd_index);
    }
}

#[test]
fn simd_i32_sse_test_many_random_runs() {
    for _ in 0..10_000 {
        let data = get_array_i32(32 * 4 + 1);
        let (argmin_index, argmax_index) = scalar_argminmax(&data);
        let (argmin_simd_index, argmax_simd_index) = SSE::argminmax(&data);
        assert_eq!(argmin_index, argmin_simd_index);
        assert_eq!(argmax_index, argmax_simd_index);
    }
}

#[test]
fn simd_i32_avx512_test_many_random_runs() {
    for _ in 0..10_000 {
        let data = get_array_i32(32 * 8 + 1);
        let (argmin_index, argmax_index) = scalar_argminmax(&data);
        let (argmin_simd_index, argmax_simd_index) = AVX512::argminmax(&data);
        assert_eq!(argmin_index, argmin_simd_index);
        assert_eq!(argmax_index, argmax_simd_index);
    }
}

#[test]
fn monotonic_i32_of_length_100000() {
    let data: Vec<i32> = (0..100_000).collect();
    assert_eq!(scalar_argminmax(&data), (0, 99_999));
    for result in kernels(&data) {
        assert_eq!(result, (0, 99_999));
    }
}

#[test]
fn single_element_and_equal_elements() {
    assert_eq!(kernels(&[7]), [(0, 0); 4]);
    assert_eq!(scalar_argminmax(&[7]), (0, 0));
    assert_eq!(SCALAR::argminmax(&[7, -7, 7]), (1, 0));
    let equal = vec![-3; 100];
    assert_eq!(kernels(&equal), [(0, 0); 4]);
    assert_eq!(scalar_argminmax(&equal), (0, 0));
}

#[test]
fn lengths_round_the_register_sizes() {
    for n in 1..70 {
        let data = get_array_i32(n);
        let expected = scalar_argminmax(&data);
        for result in kernels(&data) {
            assert_eq!(result, expected);
        }
    }
}

#[test]
fn positions_beyond_two_to_the_sixteenth_are_not_cut() {
    let mut data: Vec<i32> = vec![0; 300_000];
    data[70_000] = -1;
    data[200_001] = -1;
    data[199_999] = 1;
    data[250_000] = 1;
    assert_eq!(scalar_argminmax(&data), (70_000, 199_999));
    for result in kernels(&data) {
        assert_eq!(result, (70_000, 199_999));
    }
}

#[test]
fn every_element_lies_between_the_extremes() {
    for _ in 0..200 {
        let data = get_array_i32(777);
        for (argmin, argmax) in kernels(&data) {
            for x in data.iter() {
                assert!(data[argmin] <= *x && *x <= data[argmax]);
            }
            assert!(data[..argmin].iter().all(|x| *x > data[argmin]));
            assert!(data[..argmax].iter().all(|x| *x < data[argmax]));
        }
    }
}
