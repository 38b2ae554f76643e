use argminmax::array_view::Int64View;
use argminmax::scalar::scalar_argminmax;
use argminmax::simd::config::{AVX2, AVX512, SSE};
use argminmax::simd::generic::SIMDArgMinMax;
use argminmax::simd::simd_i64::{argminmax_i64, simple_argminmax};
use ndarray::Array1;
use rand::distributions::Uniform;
use rand::Rng;

fn get_array_i64(n: usize) -> Array1<i64> {
    let rng = rand::thread_rng();
    let uni = Uniform::new_inclusive(i64::MIN, i64::MAX);
    let arr: Vec<i64> = rng.sample_iter(uni).take(n).collect();
    Array1::from(arr)
}

fn view(data: &Array1<i64>) -> Int64View<'_> {
    Int64View::new(data.as_slice().unwrap())
}

#[test]
fn simd_i64_test_both_versions_return_the_same_results() {
    let data = get_array_i64(1025);
    assert_eq!(data.len() % 4, 1);

    let (argmin_index, argmax_index) = simple_argminmax(&view(&data));
    let (argmin_simd_index, argmax_simd_index) = argminmax_i64(view(&data)).unwrap();
    assert_eq!(argmin_index, argmin_simd_index);
    assert_eq!(argmax_index, argmax_simd_index);
}

#[test]
fn simd_i64_test_first_index_is_returned_when_identical_values_found() {
    let data = [
        std::i64::MIN,
        std::i64::MIN,
        4,
        6,
        9,
        std::i64::MAX,
        22,
        std::i64::MAX,
    ];
    let data: Vec<i64> = data.iter().map(|x| *x).collect();
    let data = Array1::from(data);

    let (argmin_index, argmax_index) = simple_argminmax(&view(&data));
    assert_eq!(argmin_index, 0);
    assert_eq!(argmax_index, 5);

    let (argmin_simd_index, argmax_simd_index) = argminmax_i64(view(&data)).unwrap();
    assert_eq!(argmin_simd_index, 0);
    assert_eq!(argmax_simd_index, 5);
}

#[test]
fn simd_i64_test_many_random_runs() {
    for _ in 0..10_000 {
        let data = get_array_i64(32 * 8 + 1);
        let (argmin_index, argmax_index) = simple_argminmax(&view(&data));
        let (argmin_simd_index, argmax_simd_index) = argminmax_i64(view(&data)).unwrap();
        assert_eq!(argmin_index, argmin_simd_index);
        assert_eq!(argmax_index, argmax_simd_index);
    }
}

#[test]
fn an_empty_view_has_no_result() {
    let data: Array1<i64> = Array1::from(Vec::new());
    assert!(view(&data).is_empty());
    assert_eq!(argminmax_i64(view(&data)), None);
}

#[test]
fn views_of_every_length_up_to_forty() {
    for n in 1..40 {
        for _ in 0..20 {
            let data = get_array_i64(n);
            let expected = simple_argminmax(&view(&data));
            assert_eq!(argminmax_i64(view(&data)), Some(expected));
        }
    }
}

#[test]
fn extremes_in_the_front_part_and_in_the_registers() {
    // 11 elements: three in front of the registers, eight in them.
    let data = Array1::from(vec![5i64, -9, 5, 0, 7, -9, 1, 7, 2, 3, 4]);
    assert_eq!(argminmax_i64(view(&data)), Some((1, 4)));
    let data = Array1::from(vec![1i64, 1, 1, 0, 9, 0, 9, 1, 1, 1, 1]);
    assert_eq!(argminmax_i64(view(&data)), Some((3, 4)));
    let data = Array1::from(vec![8i64, 2, 8, 8, 2, 8, 8, 8, 2, 8, 2]);
    assert_eq!(argminmax_i64(view(&data)), Some((1, 0)));
}

#[test]
fn a_view_shows_the_slice_it_was_made_of() {
    let data = vec![3i64, -1, 4, -1, 5, -9, 2, 6];
    let v = Int64View::new(&data);
    assert_eq!(v.len(), 8);
    assert_eq!(v.get(0), 3);
    assert_eq!(v.get(5), -9);
    let (left, right) = v.split_at(3);
    assert_eq!(left.len(), 3);
    assert_eq!(right.len(), 5);
    assert_eq!(left.get(2), 4);
    assert_eq!(right.get(0), -1);
    assert_eq!(right.get(4), 6);
}

#[test]
fn i64_slice_kernels_agree_with_the_scalar_pass_and_with_the_view_kernel() {
    for n in [1, 2, 3, 4, 5, 7, 8, 9, 15, 16, 17, 257, 1025] {
        for _ in 0..40 {
            let data = get_array_i64(n);
            let slice = data.as_slice().unwrap();
            let expected = scalar_argminmax(slice);
            assert_eq!(<AVX2 as SIMDArgMinMax<i64>>::argminmax(slice), expected);
            assert_eq!(<SSE as SIMDArgMinMax<i64>>::argminmax(slice), expected);
            assert_eq!(<AVX512 as SIMDArgMinMax<i64>>::argminmax(slice), expected);
            assert_eq!(argminmax_i64(view(&data)), Some(expected));
        }
    }
}
