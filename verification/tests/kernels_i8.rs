use argminmax::scalar::scalar_argminmax;
use argminmax::simd::config::{AVX2, AVX512, NEON, SSE};
use argminmax::simd::generic::SIMDArgMinMax;
use rand::distributions::Uniform;
use rand::Rng;

fn get_array_i8(n: usize) -> Vec<i8> {
    let rng = rand::thread_rng();
    let uni = Uniform::new_inclusive(i8::MIN, i8::MAX);
    rng.sample_iter(uni).take(n).collect()
}

fn kernels(data: &[i8]) -> [(usize, usize); 4] {
    [
        <AVX2 as SIMDArgMinMax<i8>>::argminmax(data),
        <SSE as SIMDArgMinMax<i8>>::argminmax(data),
        <AVX512 as SIMDArgMinMax<i8>>::argminmax(data),
        <NEON as SIMDArgMinMax<i8>>::argminmax(data),
    ]
}

#[test]
fn i8_kernels_return_the_first_of_identical_values() {
    let data: Vec<i8> = vec![3, i8::MIN, 6, i8::MAX, i8::MIN, i8::MAX, 0];
    assert_eq!(scalar_argminmax(&data), (1, 3));
    for result in kernels(&data) {
        assert_eq!(result, (1, 3));
    }
}

#[test]
fn i8_kernels_agree_with_the_scalar_pass() {
    for n in [1, 15, 16, 17, 31, 32, 33, 63, 64, 65, 96, 112, 113, 126, 127, 128, 129, 240, 241, 255, 256, 257, 1000] {
        for _ in 0..40 {
            let data = get_array_i8(n);
            let expected = scalar_argminmax(&data);
            for result in kernels(&data) {
                assert_eq!(result, expected);
            }
        }
    }
}

#[test]
fn i8_kernels_on_few_distinct_values() {
    let mut rng = rand::thread_rng();
    for _ in 0..300 {
        let n = rng.gen_range(1..700);
        let data: Vec<i8> = (0..n).map(|_| rng.gen_range(0..4)).collect();
        let expected = scalar_argminmax(&data);
        for result in kernels(&data) {
            assert_eq!(result, expected);
        }
    }
}

#[test]
fn i8_extremes_behind_the_first_segment() {
    let mut data: Vec<i8> = vec![0; 1000];
    data[500] = -100;
    data[600] = -100;
    data[800] = 100;
    data[801] = 100;
    for result in kernels(&data) {
        assert_eq!(result, (500, 800));
    }
}
