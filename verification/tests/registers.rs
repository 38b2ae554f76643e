use argminmax::lane::{
    lanes_add, lanes_blend, lanes_eq, lanes_gt, lanes_iota, lanes_load, lanes_lt, lanes_max,
    lanes_min, lanes_rotate, lanes_rotate_within, lanes_splat, max_index_value, min_index_value,
    Lane,
};
use argminmax::reduce::{
    bits_to_flags, flags_to_bits, fold_128, fold_256, fold_512, horiz_128, horiz_256, horiz_512,
    lanes_extreme,
};
use argminmax::element::{F32Bits, FloatElement};
use argminmax::simd::config::{AVX2, AVX512};
use argminmax::simd::generic::{find_largest_lower_multiple_of_lane_size, SIMDOps};
use argminmax::simd::task::{find_final_index_minmax, split_array};
use rand::Rng;

#[test]
fn lane_wise_primitives() {
    let a: [i32; 4] = [1, -5, 7, i32::MAX];
    let b: [i32; 4] = [2, -5, -7, 1];
    assert_eq!(lanes_add(a, b), [3, -10, 0, i32::MIN]);
    assert_eq!(lanes_gt(a, b), [false, false, true, true]);
    assert_eq!(lanes_lt(a, b), [true, false, false, false]);
    assert_eq!(lanes_eq(a, b), [false, true, false, false]);
    assert_eq!(lanes_blend(a, b, [true, false, true, false]), [2, -5, -7, i32::MAX]);
    assert_eq!(lanes_min(a, b), [1, -5, -7, 1]);
    assert_eq!(lanes_max(a, b), [2, -5, 7, i32::MAX]);
    assert_eq!(lanes_extreme(a, b, true), [2, -5, 7, i32::MAX]);
    assert_eq!(lanes_extreme(a, b, false), [1, -5, -7, 1]);
    assert_eq!(lanes_splat::<i8, 4>(9), [9, 9, 9, 9]);
    assert_eq!(lanes_iota::<i64, 4>(), [0, 1, 2, 3]);
    assert_eq!(lanes_iota::<i8, 8>(), [0, 1, 2, 3, 4, 5, 6, 7]);
    assert_eq!(lanes_load::<i32, 4>(&[9, 8, 7, 6, 5, 4, 3], 2), [7, 6, 5, 4]);
    let bytes: [i8; 2] = lanes_add([127, -128], [1, -1]);
    assert_eq!(bytes, [-128, 127]);
    let words: [i16; 2] = lanes_add([i16::MAX, 7], [1, 1]);
    assert_eq!(words, [i16::MIN, 8]);
}

#[test]
fn lanes_as_positions() {
    assert_eq!(<i8 as Lane>::of_index(127), 127);
    assert_eq!(<i32 as Lane>::of_index(70_000), 70_000);
    assert_eq!(<i16 as Lane>::of_index(255), 255);
    assert_eq!(100i8.to_index(), 100);
    assert_eq!(i64::MAX.to_index(), i64::MAX as usize);
    assert_eq!(<i8 as Lane>::highest(), 127);
    assert_eq!(<i64 as Lane>::highest(), i64::MAX);
    assert_eq!(<i16 as Lane>::highest(), i16::MAX);
    assert_eq!(120i8.add_wrapping(10), -126);
    assert!(3i16.is_lt(4) && 4i16.is_gt(3) && 4i16.is_eq(4));
}

#[test]
fn rotations() {
    let v: [i32; 4] = [10, 11, 12, 13];
    assert_eq!(lanes_rotate(v, 1), [11, 12, 13, 10]);
    assert_eq!(lanes_rotate(v, 3), [13, 10, 11, 12]);
    assert_eq!(lanes_rotate(v, 0), v);
    let v: [i8; 32] = lanes_iota();
    let r = lanes_rotate_within(v, 8);
    for k in 0..32 {
        assert_eq!(r[k] as usize, (k / 16) * 16 + (k % 16 + 8) % 16);
    }
    let r = lanes_rotate(v, 16);
    for k in 0..32 {
        assert_eq!(r[k] as usize, (k + 16) % 32);
    }
}

#[test]
fn scans_return_the_smallest_index_of_the_extreme() {
    let index: [i32; 8] = [40, 9, 18, 3, 12, 21, 6, 15];
    let value: [i32; 8] = [-2, 5, -2, 5, 0, 5, -2, 1];
    assert_eq!(min_index_value(&index, &value), (6, -2));
    assert_eq!(max_index_value(&index, &value), (3, 5));
}

#[test]
fn flags_and_bits() {
    let flags = [true, false, false, true, true, false, false, false];
    assert_eq!(flags_to_bits(flags), 0b1_1001);
    assert_eq!(bits_to_flags::<8>(0b1_1001), flags);
    assert_eq!(flags_to_bits([true; 64]), u64::MAX);
    assert_eq!(flags_to_bits([false; 64]), 0);
    assert_eq!(bits_to_flags::<4>(0xF0), [false; 4]);
    let mut rng = rand::thread_rng();
    for _ in 0..1000 {
        let m: u64 = rng.gen();
        assert_eq!(flags_to_bits(bits_to_flags::<64>(m)), m);
        assert_eq!(flags_to_bits(bits_to_flags::<16>(m)), m & 0xFFFF);
    }
}

#[test]
fn trees_put_the_extreme_into_every_lane() {
    let mut rng = rand::thread_rng();
    for _ in 0..2000 {
        let a: [i8; 16] = rng.gen();
        let lo = *a.iter().min().unwrap();
        let hi = *a.iter().max().unwrap();
        assert_eq!(fold_128(a, false), [lo; 16]);
        assert_eq!(fold_128(a, true), [hi; 16]);
        let b: [i8; 32] = rng.gen();
        let lo = *b.iter().min().unwrap();
        let hi = *b.iter().max().unwrap();
        assert_eq!(fold_256(b, false), [lo; 32]);
        assert_eq!(fold_256(b, true), [hi; 32]);
        let mut c: [i8; 64] = [0; 64];
        rng.fill(&mut c[..]);
        let lo = *c.iter().min().unwrap();
        let hi = *c.iter().max().unwrap();
        assert_eq!(fold_512(c, false), [lo; 64]);
        assert_eq!(fold_512(c, true), [hi; 64]);
    }
}

#[test]
fn reductions_in_registers_agree_with_the_scan() {
    let mut rng = rand::thread_rng();
    for _ in 0..2000 {
        let mut index: [i8; 16] = [0; 16];
        let mut value: [i8; 16] = [0; 16];
        for k in 0..16 {
            index[k] = rng.gen_range(0..=127);
            value[k] = rng.gen_range(-3..3);
        }
        assert_eq!(horiz_128(index, value, false), min_index_value(&index, &value));
        assert_eq!(horiz_128(index, value, true), max_index_value(&index, &value));
        let mut index: [i8; 32] = [0; 32];
        let mut value: [i8; 32] = [0; 32];
        for k in 0..32 {
            index[k] = rng.gen_range(0..=127);
            value[k] = rng.gen_range(-128..=127);
        }
        assert_eq!(horiz_256(index, value, false), min_index_value(&index, &value));
        assert_eq!(horiz_256(index, value, true), max_index_value(&index, &value));
        let mut index: [i8; 64] = [0; 64];
        let mut value: [i8; 64] = [0; 64];
        for k in 0..64 {
            index[k] = rng.gen_range(0..=127);
            value[k] = rng.gen_range(0..4);
        }
        assert_eq!(horiz_512(index, value, false), min_index_value(&index, &value));
        assert_eq!(horiz_512(index, value, true), max_index_value(&index, &value));
    }
}

#[test]
fn an_index_lane_may_hold_the_largest_index() {
    // Every lane at the largest index: it is the only one to return.
    let mut value: [i8; 16] = [5; 16];
    value[9] = 3;
    value[12] = 3;
    assert_eq!(horiz_128([127; 16], value, false), (127, 3));
    assert_eq!(horiz_128([127; 16], value, true), (127, 5));
    let mut value: [i8; 32] = [5; 32];
    value[20] = 3;
    assert_eq!(horiz_256([127; 32], value, false), (127, 3));
    assert_eq!(horiz_256([127; 32], value, true), (127, 5));
    let mut value: [i8; 64] = [5; 64];
    value[63] = 3;
    assert_eq!(horiz_512([127; 64], value, false), (127, 3));
    assert_eq!(horiz_512([127; 64], value, true), (127, 5));
    // The extreme at the largest index and elsewhere: the smaller index.
    let mut index: [i8; 16] = [127; 16];
    index[12] = 40;
    let mut value: [i8; 16] = [5; 16];
    value[9] = 3;
    value[12] = 3;
    assert_eq!(horiz_128(index, value, false), (40, 3));
    assert_eq!(horiz_128(index, value, true), (127, 5));
    // Through the kernels' own reductions, decoded.
    let mut value: [i8; 32] = [5; 32];
    value[20] = 3;
    assert_eq!(<AVX2 as SIMDOps<u8>>::horiz_min([127; 32], value), (127, 3 ^ 0x7F));
    assert_eq!(<AVX2 as SIMDOps<u8>>::horiz_max([127; 32], value), (127, 5 ^ 0x7F));
    assert_eq!(
        <AVX2 as SIMDOps<u8>>::get_min_max_index_value([127; 32], value, [127; 32], value),
        (127, 5 ^ 0x7F, 127, 3 ^ 0x7F)
    );
    let mut value: [i8; 64] = [5; 64];
    value[63] = 3;
    assert_eq!(<AVX512 as SIMDOps<u8>>::horiz_min([127; 64], value), (127, 3 ^ 0x7F));
    let mut index: [i32; 16] = [i32::MAX; 16];
    index[3] = 7;
    let mut value: [i32; 16] = [0; 16];
    value[3] = 0x7FC0_0000;
    value[8] = 0x7FC0_0000;
    let (at, largest) = <AVX512 as SIMDOps<F32Bits>>::horiz_max(index, value);
    assert_eq!(at, 7);
    assert!(largest.is_nan());
    value[3] = 0;
    let (at, largest) = <AVX512 as SIMDOps<F32Bits>>::horiz_max(index, value);
    assert_eq!(at, i32::MAX as usize);
    assert_eq!(largest.bits, 0x7FC0_0000);
}

#[test]
fn inputs_are_cut_behind_the_last_whole_register() {
    let data: Vec<i32> = (0..21).collect();
    let (sim, rem) = split_array(&data, 8);
    assert_eq!(sim.unwrap(), &data[..16]);
    assert_eq!(rem.unwrap(), &data[16..]);
    let (sim, rem) = split_array(&data[..16], 8);
    assert_eq!(sim.unwrap(), &data[..16]);
    assert!(rem.is_none());
    let (sim, rem) = split_array(&data[..15], 8);
    assert_eq!(sim.unwrap(), &data[..8]);
    assert_eq!(rem.unwrap(), &data[8..15]);
    let (sim, rem) = split_array(&data[..8], 8);
    assert_eq!(sim.unwrap(), &data[..8]);
    assert!(rem.is_none());
    let (sim, rem) = split_array(&data[..7], 8);
    assert!(sim.is_none());
    assert_eq!(rem.unwrap(), &data[..7]);
    let (sim, rem) = split_array(&data[..0], 8);
    assert!(sim.is_none());
    assert_eq!(rem.unwrap().len(), 0);
    assert_eq!(find_largest_lower_multiple_of_lane_size(127, 16), 112);
    assert_eq!(find_largest_lower_multiple_of_lane_size(127, 32), 96);
    assert_eq!(find_largest_lower_multiple_of_lane_size(127, 64), 64);
    assert_eq!(find_largest_lower_multiple_of_lane_size(64, 8), 64);
    assert_eq!(find_largest_lower_multiple_of_lane_size(5, 8), 0);
}

#[test]
fn merging_keeps_the_better_value_and_then_the_smaller_position() {
    // (argmin, min, argmax, max)
    assert_eq!(find_final_index_minmax((20, 1, 21, 9), (3, 2, 4, 8)), (20, 21));
    assert_eq!(find_final_index_minmax((20, 2, 21, 8), (3, 2, 4, 8)), (3, 4));
    assert_eq!(find_final_index_minmax((20, 3, 21, 7), (3, 2, 4, 8)), (3, 4));
    assert_eq!(find_final_index_minmax((1, 2, 2, 8), (3, 2, 4, 8)), (1, 2));
}
