use argminmax::scalar::scalar_argminmax;
use argminmax::simd::config::{AVX2, AVX512, NEON, SSE};
use argminmax::simd::generic::SIMDArgMinMax;
use rand::distributions::Uniform;
use rand::Rng;

fn get_array_u16(n: usize) -> Vec<u16> {
    let rng = rand::thread_rng();
    let uni = Uniform::new_inclusive(u16::MIN, u16::MAX);
    rng.sample_iter(uni).take(n).collect()
}

fn kernels(data: &[u16]) -> [(usize, usize); 4] {
    [
        <AVX2 as SIMDArgMinMax<u16>>::argminmax(data),
        <SSE as SIMDArgMinMax<u16>>::argminmax(data),
        <AVX512 as SIMDArgMinMax<u16>>::argminmax(data),
        <NEON as SIMDArgMinMax<u16>>::argminmax(data),
    ]
}

#[test]
fn u16_kernels_return_the_first_of_identical_values() {
    let data: Vec<u16> = vec![10, 0, 6, 9, 9, 22, u16::MAX, 4, u16::MAX, 0x8000, 0x7FFF];
    assert_eq!(scalar_argminmax(&data), (1, 6));
    for result in kernels(&data) {
        assert_eq!(result, (1, 6));
    }
}

#[test]
fn u16_kernels_agree_with_the_scalar_pass() {
    for n in [1, 7, 8, 9, 31, 32, 33, 63, 64, 65, 1025, 32767, 32768, 32769, 70001] {
        for _ in 0..40 {
            let data = get_array_u16(n);
            let expected = scalar_argminmax(&data);
            for result in kernels(&data) {
                assert_eq!(result, expected);
            }
        }
    }
}

#[test]
fn u16_kernels_on_few_distinct_values() {
    let mut rng = rand::thread_rng();
    for _ in 0..300 {
        let n = rng.gen_range(1..700);
        let data: Vec<u16> = (0..n).map(|_| rng.gen_range(0..4)).collect();
        let expected = scalar_argminmax(&data);
        for result in kernels(&data) {
            assert_eq!(result, expected);
        }
    }
}

#[test]
fn u16_extremes_behind_the_first_segment() {
    let mut data: Vec<u16> = vec![0x8000; 100_000];
    data[40_000] = 0x7FFF;
    data[70_000] = 0x7FFF;
    data[90_000] = 0x8001;
    data[90_001] = 0x8001;
    for result in kernels(&data) {
        assert_eq!(result, (40_000, 90_000));
    }
}
