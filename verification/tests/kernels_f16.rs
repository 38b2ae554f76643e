use argminmax::api::{argmax, argmin, argminmax, nanargmax, nanargmin, nanargminmax};
use argminmax::element::{Element, F16Bits, FloatElement};
use argminmax::ordinal::{f16_bits_are_nan, f16_to_i16ord, i16ord_to_f16};
use argminmax::scalar::scalar_argminmax;
use argminmax::simd::config::{CpuFeatures, AVX2, AVX512, SSE};
use argminmax::simd::generic::SIMDArgMinMax;
use rand::distributions::Uniform;
use rand::Rng;

const ARRAY_LENGTH: usize = 100_000;
const NB_RANDOM_RUNS: usize = 500;
const RANDOM_ARR_LENGTH: usize = 5_000;

/// The bits of the 16-bit float that holds the integer `v`, which is at most
/// 2048.
fn f16_from_usize(v: usize) -> u16 {
    assert!(v <= 2048);
    if v == 0 {
        return 0;
    }
    let e = (usize::BITS - 1 - v.leading_zeros()) as usize;
    let mantissa = (v << (10 - e)) & 0x3FF;
    (((e + 15) << 10) | mantissa) as u16
}

/// The value of a 16-bit float.
fn f16_to_f32(bits: u16) -> f32 {
    let sign = if bits & 0x8000 != 0 { -1.0 } else { 1.0 };
    let exponent = ((bits >> 10) & 0x1F) as i32;
    let mantissa = (bits & 0x3FF) as f32;
    if exponent == 0 {
        sign * mantissa * 2f32.powi(-24)
    } else if exponent == 31 {
        if mantissa == 0.0 {
            sign * f32::INFINITY
        } else {
            f32::NAN
        }
    } else {
        sign * (1.0 + mantissa / 1024.0) * 2f32.powi(exponent - 15)
    }
}

fn get_monotonic_array(n: usize, max_index: usize) -> Vec<F16Bits> {
    (0..n).map(|x| F16Bits::new(f16_from_usize(x % max_index))).collect()
}

fn machines() -> Vec<CpuFeatures> {
    let none = CpuFeatures::none();
    vec![
        none,
        CpuFeatures { sse4_1: true, sse4_2: true, ..none },
        CpuFeatures { sse4_1: true, sse4_2: true, avx2: true, ..none },
        CpuFeatures { sse4_1: true, sse4_2: true, avx2: true, avx512f: true, avx512bw: true, ..none },
        CpuFeatures { neon: true, ..none },
    ]
}

#[test]
fn test_argminmax_arrow2_f16() {
    // Get monotonic array
    let max_index: usize = 1 << 11;
    let data = get_monotonic_array(ARRAY_LENGTH, max_index);
    assert_eq!(f16_to_f32(data[2047].bits), 2047.0);
    assert_eq!(f16_to_f32(data[2048].bits), 0.0);

    for m in machines() {
        let (min, max) = argminmax(&data, &m).unwrap();
        assert_eq!(min, 0);
        assert_eq!(min, argmin(&data, &m).unwrap());
        assert_eq!(max, max_index - 1);
        assert_eq!(max, argmax(&data, &m).unwrap());

        let (min, max) = nanargminmax(&data, &m).unwrap();
        assert_eq!(min, 0);
        assert_eq!(min, nanargmin(&data, &m).unwrap());
        assert_eq!(max, max_index - 1);
        assert_eq!(max, nanargmax(&data, &m).unwrap());
    }

    // --- many random runs
    let scalar = CpuFeatures::none();
    for _ in 0..NB_RANDOM_RUNS {
        let rng = rand::thread_rng();
        let data: Vec<i16> = rng
            .sample_iter(Uniform::new_inclusive(i16::MIN, i16::MAX))
            .take(RANDOM_ARR_LENGTH)
            .collect();
        let data_half: Vec<F16Bits> = data.into_iter().map(|x| F16Bits::new(x as u16)).collect();

        let (min_slice, max_slice) = argminmax(&data_half, &scalar).unwrap();
        for m in machines() {
            let (min_vec, max_vec) = argminmax(&data_half, &m).unwrap();
            assert_eq!(min_slice, min_vec);
            assert_eq!(min_slice, argmin(&data_half, &m).unwrap());
            assert_eq!(max_slice, max_vec);
            assert_eq!(max_slice, argmax(&data_half, &m).unwrap());
        }
    }
}

#[test]
fn f16_ordinals_keep_the_order_and_come_back() {
    assert_eq!(f16_to_i16ord(0x3C00), 0x3C00);
    assert_eq!(f16_to_i16ord(0x8000), -1);
    assert_eq!(f16_to_i16ord(0xFC00), -0x7C01);
    for a in 0..=u16::MAX {
        assert_eq!(i16ord_to_f16(f16_to_i16ord(a)), a);
        assert_eq!(f16_bits_are_nan(a), f16_to_f32(a).is_nan());
        assert_eq!(F16Bits::new(a).is_nan(), f16_to_f32(a).is_nan());
    }
    let mut rng = rand::thread_rng();
    for _ in 0..100_000 {
        let a: u16 = rng.gen();
        let b: u16 = rng.gen();
        let (x, y) = (f16_to_f32(a), f16_to_f32(b));
        if x.is_nan() || y.is_nan() || (x == 0.0 && y == 0.0) {
            continue;
        }
        assert_eq!(x < y, f16_to_i16ord(a) < f16_to_i16ord(b));
        assert_eq!(x < y, F16Bits::new(a).less(F16Bits::new(b)));
    }
}

#[test]
fn f16_kernels_agree_with_the_scalar_pass() {
    let mut rng = rand::thread_rng();
    for n in [1, 7, 8, 9, 15, 16, 17, 31, 32, 33, 1025, 32767, 32768, 70001] {
        for _ in 0..20 {
            let data: Vec<F16Bits> = (0..n).map(|_| F16Bits::new(rng.gen())).collect();
            let expected = scalar_argminmax(&data);
            assert_eq!(<AVX2 as SIMDArgMinMax<F16Bits>>::argminmax(&data), expected);
            assert_eq!(<SSE as SIMDArgMinMax<F16Bits>>::argminmax(&data), expected);
            assert_eq!(<AVX512 as SIMDArgMinMax<F16Bits>>::argminmax(&data), expected);
        }
    }
}
