use argminmax::scalar::scalar_argminmax;
use argminmax::simd::config::{AVX2, AVX512, NEON, SSE};
use argminmax::simd::generic::SIMDArgMinMax;
use rand::distributions::Uniform;
use rand::Rng;

fn get_array_i16(n: usize) -> Vec<i16> {
    let rng = rand::thread_rng();
    let uni = Uniform::new_inclusive(i16::MIN, i16::MAX);
    rng.sample_iter(uni).take(n).collect()
}

fn kernels(data: &[i16]) -> [(usize, usize); 4] {
    [
        <AVX2 as SIMDArgMinMax<i16>>::argminmax(data),
        <SSE as SIMDArgMinMax<i16>>::argminmax(data),
        <AVX512 as SIMDArgMinMax<i16>>::argminmax(data),
        <NEON as SIMDArgMinMax<i16>>::argminmax(data),
    ]
}

#[test]
fn i16_kernels_return_the_first_of_identical_values() {
    let data: Vec<i16> = vec![3, i16::MIN, 6, i16::MAX, i16::MIN, i16::MAX, 0];
    assert_eq!(scalar_argminmax(&data), (1, 3));
    for result in kernels(&data) {
        assert_eq!(result, (1, 3));
    }
}

#[test]
fn i16_kernels_agree_with_the_scalar_pass() {
    for n in [1, 7, 8, 9, 31, 32, 33, 63, 64, 65, 1025, 32767, 32768, 32769, 70001] {
        for _ in 0..40 {
            let data = get_array_i16(n);
            let expected = scalar_argminmax(&data);
            for result in kernels(&data) {
                assert_eq!(result, expected);
            }
        }
    }
}

#[test]
fn i16_kernels_on_few_distinct_values() {
    let mut rng = rand::thread_rng();
    for _ in 0..300 {
        let n = rng.gen_range(1..700);
        let data: Vec<i16> = (0..n).map(|_| rng.gen_range(0..4)).collect();
        let expected = scalar_argminmax(&data);
        for result in kernels(&data) {
            assert_eq!(result, expected);
        }
    }
}

#[test]
fn i16_extremes_behind_the_first_segment() {
    let mut data: Vec<i16> = vec![0; 100_000];
    data[40_000] = -100;
    data[70_000] = -100;
    data[90_000] = 100;
    data[90_001] = 100;
    for result in kernels(&data) {
        assert_eq!(result, (40_000, 90_000));
    }
}
