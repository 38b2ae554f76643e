use argminmax::api::{
    argmax, argmin, argminmax, nanargmax, nanargmin, nanargminmax, scalar_nanargminmax,
    ArgMinMaxError,
};
use argminmax::element::{F32Bits, F64Bits};
use argminmax::simd::config::CpuFeatures;
use rand::distributions::Uniform;
use rand::Rng;

fn machines() -> Vec<CpuFeatures> {
    let none = CpuFeatures::none();
    vec![
        none,
        CpuFeatures { sse4_1: true, sse4_2: true, ..none },
        CpuFeatures { sse4_1: true, sse4_2: true, avx2: true, ..none },
        CpuFeatures { sse4_1: true, sse4_2: true, avx2: true, avx512f: true, ..none },
        CpuFeatures { sse4_1: true, sse4_2: true, avx2: true, avx512f: true, avx512bw: true, ..none },
        CpuFeatures { neon: true, ..none },
    ]
}

fn floats(data: &[f32]) -> Vec<F32Bits> {
    data.iter().map(|x| F32Bits::new(x.to_bits())).collect()
}

#[test]
fn an_empty_input_is_an_error() {
    for m in machines() {
        let empty: Vec<i32> = Vec::new();
        assert_eq!(argminmax(&empty, &m), Err(ArgMinMaxError::EmptyInput));
        assert_eq!(argmin(&empty, &m), Err(ArgMinMaxError::EmptyInput));
        assert_eq!(argmax(&empty, &m), Err(ArgMinMaxError::EmptyInput));
        let empty: Vec<F32Bits> = Vec::new();
        assert_eq!(nanargminmax(&empty, &m), Err(ArgMinMaxError::EmptyInput));
        assert_eq!(nanargmin(&empty, &m), Err(ArgMinMaxError::EmptyInput));
        assert_eq!(nanargmax(&empty, &m), Err(ArgMinMaxError::EmptyInput));
        assert_eq!(scalar_nanargminmax(&empty), Err(ArgMinMaxError::EmptyInput));
    }
}

#[test]
fn an_input_of_nans_is_an_error_where_nans_are_left_out() {
    for m in machines() {
        let data = floats(&[f32::NAN, -f32::NAN, f32::NAN]);
        assert_eq!(nanargminmax(&data, &m), Err(ArgMinMaxError::AllNaN));
        assert_eq!(nanargmin(&data, &m), Err(ArgMinMaxError::AllNaN));
        assert_eq!(nanargmax(&data, &m), Err(ArgMinMaxError::AllNaN));
        assert_eq!(argminmax(&data, &m), Ok((1, 0)));
    }
}

#[test]
fn the_errors_say_what_went_wrong() {
    assert_eq!(ArgMinMaxError::EmptyInput.message(), "the input is empty");
    assert_eq!(ArgMinMaxError::AllNaN.message(), "every element of the input is NaN");
}

#[test]
fn known_inputs_on_every_machine() {
    for m in machines() {
        let data = floats(&[
            10.,
            f32::MAX,
            6.,
            f32::NEG_INFINITY,
            f32::NEG_INFINITY,
            f32::MAX,
            10_000.0,
        ]);
        assert_eq!(argminmax(&data, &m), Ok((3, 1)));
        assert_eq!(nanargminmax(&data, &m), Ok((3, 1)));
        let data = [i32::MIN, i32::MIN, 4, 6, 9, i32::MAX, 22, i32::MAX];
        assert_eq!(argminmax(&data, &m), Ok((0, 5)));
        assert_eq!(argmin(&data, &m), Ok(0));
        assert_eq!(argmax(&data, &m), Ok(5));
        let data = [10, 0, 6, 9, 9, 22, u64::MAX, 4, u64::MAX];
        assert_eq!(argminmax(&data, &m), Ok((1, 6)));
        let data: [u8; 9] = [10, 0, 6, 9, 9, 22, 255, 4, 255];
        assert_eq!(argminmax(&data, &m), Ok((1, 6)));
        let data: Vec<i32> = (0..100_000).collect();
        assert_eq!(argminmax(&data, &m), Ok((0, 99_999)));
        let data: Vec<u8> = (0..100_000usize).map(|x| (x % 128) as u8).collect();
        assert_eq!(argminmax(&data, &m), Ok((0, 127)));
    }
}

#[test]
fn random_int32_of_length_257_on_every_machine() {
    let scalar = CpuFeatures::none();
    for _ in 0..2_000 {
        let rng = rand::thread_rng();
        let data: Vec<i32> =
            rng.sample_iter(Uniform::new_inclusive(i32::MIN, i32::MAX)).take(32 * 8 + 1).collect();
        let expected = argminmax(&data, &scalar);
        for m in machines() {
            assert_eq!(argminmax(&data, &m), expected);
        }
    }
}

#[test]
fn every_element_type_on_every_machine() {
    let mut rng = rand::thread_rng();
    let scalar = CpuFeatures::none();
    for m in machines() {
        for _ in 0..50 {
            let n = rng.gen_range(1..600);
            let a: Vec<i8> = (0..n).map(|_| rng.gen()).collect();
            assert_eq!(argminmax(&a, &m), argminmax(&a, &scalar));
            let a: Vec<i16> = (0..n).map(|_| rng.gen()).collect();
            assert_eq!(argminmax(&a, &m), argminmax(&a, &scalar));
            let a: Vec<i64> = (0..n).map(|_| rng.gen()).collect();
            assert_eq!(argminmax(&a, &m), argminmax(&a, &scalar));
            let a: Vec<u8> = (0..n).map(|_| rng.gen()).collect();
            assert_eq!(argminmax(&a, &m), argminmax(&a, &scalar));
            let a: Vec<u16> = (0..n).map(|_| rng.gen()).collect();
            assert_eq!(argminmax(&a, &m), argminmax(&a, &scalar));
            let a: Vec<u32> = (0..n).map(|_| rng.gen()).collect();
            assert_eq!(argminmax(&a, &m), argminmax(&a, &scalar));
            let a: Vec<u64> = (0..n).map(|_| rng.gen()).collect();
            assert_eq!(argminmax(&a, &m), argminmax(&a, &scalar));
            let a: Vec<F32Bits> = (0..n).map(|_| F32Bits::new(rng.gen())).collect();
            assert_eq!(argminmax(&a, &m), argminmax(&a, &scalar));
            assert_eq!(nanargminmax(&a, &m), scalar_nanargminmax(&a));
            let a: Vec<F64Bits> = (0..n).map(|_| F64Bits::new(rng.gen())).collect();
            assert_eq!(argminmax(&a, &m), argminmax(&a, &scalar));
            assert_eq!(nanargminmax(&a, &m), scalar_nanargminmax(&a));
        }
    }
}

#[test]
fn nans_are_left_out() {
    for m in machines() {
        let data = floats(&[f32::NAN, 3.0, -f32::NAN, -7.5, 3.0, f32::NAN, -7.5, 1.0]);
        assert_eq!(argminmax(&data, &m), Ok((2, 0)));
        assert_eq!(nanargminmax(&data, &m), Ok((3, 1)));
        assert_eq!(nanargmin(&data, &m), Ok(3));
        assert_eq!(nanargmax(&data, &m), Ok(1));
        let data = floats(&[f32::NAN, f32::NAN, 2.0]);
        assert_eq!(nanargminmax(&data, &m), Ok((2, 2)));
    }
}

#[test]
fn nans_left_out_in_long_random_inputs() {
    let mut rng = rand::thread_rng();
    for m in machines() {
        for _ in 0..200 {
            let mut data: Vec<f32> = (0..300).map(|_| rng.gen_range(-1000.0..1000.0)).collect();
            for _ in 0..rng.gen_range(0..5) {
                let at = rng.gen_range(0..300);
                data[at] = if rng.gen_range(0..2) == 0 { f32::NAN } else { -f32::NAN };
            }
            let mut lo = None;
            let mut hi = None;
            for (i, x) in data.iter().enumerate() {
                if x.is_nan() {
                    continue;
                }
                if lo.map_or(true, |j: usize| *x < data[j]) {
                    lo = Some(i);
                }
                if hi.map_or(true, |j: usize| *x > data[j]) {
                    hi = Some(i);
                }
            }
            let bits = floats(&data);
            assert_eq!(nanargminmax(&bits, &m), Ok((lo.unwrap(), hi.unwrap())));
            assert_eq!(scalar_nanargminmax(&bits), Ok((lo.unwrap(), hi.unwrap())));
        }
    }
}
