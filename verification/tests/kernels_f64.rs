use argminmax::element::F64Bits;
use argminmax::scalar::scalar_argminmax;
use argminmax::simd::config::{AVX2, AVX512, SSE};
use argminmax::simd::generic::SIMDArgMinMax;
use rand::distributions::Uniform;
use rand::Rng;

fn to_bits(data: &[f64]) -> Vec<F64Bits> {
    data.iter().map(|x| F64Bits::new(x.to_bits())).collect()
}

fn get_array_f64(n: usize) -> Vec<f64> {
    let rng = rand::thread_rng();
    let uni = Uniform::new_inclusive(-1.0f64, 1.0f64);
    rng.sample_iter(uni).take(n).map(|x: f64| x * f64::MAX).collect()
}

fn kernels(data: &[F64Bits]) -> [(usize, usize); 3] {
    [
        <AVX2 as SIMDArgMinMax<F64Bits>>::argminmax(data),
        <SSE as SIMDArgMinMax<F64Bits>>::argminmax(data),
        <AVX512 as SIMDArgMinMax<F64Bits>>::argminmax(data),
    ]
}

#[test]
fn f64_kernels_return_the_first_of_identical_values() {
    let data = to_bits(&[10., f64::MAX, 6., f64::NEG_INFINITY, f64::NEG_INFINITY, f64::MAX, 10_000.0]);
    assert_eq!(scalar_argminmax(&data), (3, 1));
    for result in kernels(&data) {
        assert_eq!(result, (3, 1));
    }
}

#[test]
fn f64_kernels_agree_with_the_order_of_the_floats() {
    for n in [1, 2, 3, 4, 5, 7, 8, 9, 15, 16, 17, 257, 1025] {
        for _ in 0..40 {
            let data = get_array_f64(n);
            let mut lo = 0;
            let mut hi = 0;
            for (i, x) in data.iter().enumerate() {
                if *x < data[lo] {
                    lo = i;
                }
                if *x > data[hi] {
                    hi = i;
                }
            }
            let bits = to_bits(&data);
            assert_eq!(scalar_argminmax(&bits), (lo, hi));
            for result in kernels(&bits) {
                assert_eq!(result, (lo, hi));
            }
        }
    }
}

#[test]
fn f64_positive_nan_is_the_argmax() {
    let mut data: Vec<f64> = (0..100).map(|x| x as f64).collect();
    data[37] = f64::NAN;
    data[64] = f64::NAN;
    let data = to_bits(&data);
    for result in kernels(&data) {
        assert_eq!(result, (0, 37));
    }
}
