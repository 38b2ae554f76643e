use argminmax::scalar::scalar_argminmax;
use argminmax::simd::config::{AVX2, AVX512, NEON, SSE};
use argminmax::simd::generic::SIMDArgMinMax;
use rand::distributions::Uniform;
use rand::Rng;

fn get_array_u32(n: usize) -> Vec<u32> {
    let rng = rand::thread_rng();
    let uni = Uniform::new_inclusive(u32::MIN, u32::MAX);
    rng.sample_iter(uni).take(n).collect()
}

fn kernels(data: &[u32]) -> [(usize, usize); 4] {
    [
        <AVX2 as SIMDArgMinMax<u32>>::argminmax(data),
        <SSE as SIMDArgMinMax<u32>>::argminmax(data),
        <AVX512 as SIMDArgMinMax<u32>>::argminmax(data),
        <NEON as SIMDArgMinMax<u32>>::argminmax(data),
    ]
}

#[test]
fn u32_kernels_return_the_first_of_identical_values() {
    let data: Vec<u32> = vec![10, 0, 6, 9, 9, 22, u32::MAX, 4, u32::MAX, 0x8000_0000, 0x7FFF_FFFF];
    assert_eq!(scalar_argminmax(&data), (1, 6));
    for result in kernels(&data) {
        assert_eq!(result, (1, 6));
    }
}

#[test]
fn u32_kernels_agree_with_the_scalar_pass() {
    for n in [1, 3, 4, 5, 15, 16, 17, 31, 32, 33, 257, 1025] {
        for _ in 0..40 {
            let data = get_array_u32(n);
            let expected = scalar_argminmax(&data);
            for result in kernels(&data) {
                assert_eq!(result, expected);
            }
        }
    }
}

#[test]
fn u32_kernels_on_few_distinct_values() {
    let mut rng = rand::thread_rng();
    for _ in 0..300 {
        let n = rng.gen_range(1..700);
        let data: Vec<u32> = (0..n).map(|_| rng.gen_range(0..4)).collect();
        let expected = scalar_argminmax(&data);
        for result in kernels(&data) {
            assert_eq!(result, expected);
        }
    }
}
