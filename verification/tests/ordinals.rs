use argminmax::element::{Element, F32Bits, F64Bits, FloatElement};
use argminmax::ordinal::{
    f32_bits_are_nan, f32_to_i32ord, f64_bits_are_nan, f64_to_i64ord, i32ord_to_f32,
    i64ord_to_f64, i64ord_to_u64, i8decrord_to_u8, u64_to_i64ord, u8_to_i8decrord,
};
use rand::Rng;

#[test]
fn every_byte_has_its_decreasing_ordinal() {
    for x in 0..=255u8 {
        let o = u8_to_i8decrord(x);
        assert_eq!(o as i32, 127 - x as i32);
        assert_eq!(i8decrord_to_u8(o), x);
    }
    assert_eq!(u8_to_i8decrord(0), 127);
    assert_eq!(u8_to_i8decrord(255), -128);
    assert_eq!(u8_to_i8decrord(128), -1);
}

#[test]
fn unsigned_64_bit_ordinals() {
    assert_eq!(u64_to_i64ord(0), i64::MIN);
    assert_eq!(u64_to_i64ord(u64::MAX), i64::MAX);
    assert_eq!(u64_to_i64ord(1 << 63), 0);
    assert_eq!(u64_to_i64ord((1 << 63) - 1), -1);
    assert_eq!(i64ord_to_u64(0), 1 << 63);
    let mut rng = rand::thread_rng();
    for _ in 0..10_000 {
        let a: u64 = rng.gen();
        let b: u64 = rng.gen();
        assert_eq!(i64ord_to_u64(u64_to_i64ord(a)), a);
        assert_eq!(a < b, u64_to_i64ord(a) < u64_to_i64ord(b));
    }
}

#[test]
fn float_32_ordinals_of_chosen_values() {
    assert_eq!(f32_to_i32ord(0.0f32.to_bits()), 0);
    assert_eq!(f32_to_i32ord((-0.0f32).to_bits()), -1);
    assert_eq!(f32_to_i32ord(1.0f32.to_bits()), 0x3F80_0000);
    assert_eq!(f32_to_i32ord((-1.0f32).to_bits()), -0x3F80_0001);
    assert_eq!(f32_to_i32ord(f32::INFINITY.to_bits()), 0x7F80_0000);
    assert_eq!(f32_to_i32ord(f32::NEG_INFINITY.to_bits()), -0x7F80_0001);
    assert_eq!(f32_to_i32ord(0x7FFF_FFFF), i32::MAX);
    assert_eq!(f32_to_i32ord(0xFFFF_FFFF), i32::MIN);
    assert_eq!(i32ord_to_f32(-1), (-0.0f32).to_bits());
    assert_eq!(i32ord_to_f32(0x3F80_0000), 1.0f32.to_bits());
}

#[test]
fn float_32_ordinals_keep_the_order_and_come_back() {
    let mut rng = rand::thread_rng();
    for _ in 0..100_000 {
        let a = f32::from_bits(rng.gen());
        let b = f32::from_bits(rng.gen());
        assert_eq!(i32ord_to_f32(f32_to_i32ord(a.to_bits())), a.to_bits());
        if a.is_nan() || b.is_nan() {
            continue;
        }
        assert_eq!(a < b, f32_to_i32ord(a.to_bits()) < f32_to_i32ord(b.to_bits()));
        assert_eq!(a < b, F32Bits::new(a.to_bits()).less(F32Bits::new(b.to_bits())));
    }
}

#[test]
fn float_64_ordinals_keep_the_order_and_come_back() {
    assert_eq!(f64_to_i64ord(1.0f64.to_bits()), 0x3FF0_0000_0000_0000);
    assert_eq!(f64_to_i64ord((-0.0f64).to_bits()), -1);
    assert_eq!(f64_to_i64ord(f64::NEG_INFINITY.to_bits()), -0x7FF0_0000_0000_0001);
    let mut rng = rand::thread_rng();
    for _ in 0..100_000 {
        let a = f64::from_bits(rng.gen());
        let b = f64::from_bits(rng.gen());
        assert_eq!(i64ord_to_f64(f64_to_i64ord(a.to_bits())), a.to_bits());
        if a.is_nan() || b.is_nan() {
            continue;
        }
        assert_eq!(a < b, f64_to_i64ord(a.to_bits()) < f64_to_i64ord(b.to_bits()));
        assert_eq!(a < b, F64Bits::new(a.to_bits()).less(F64Bits::new(b.to_bits())));
    }
}

#[test]
fn nans_are_told_from_numbers() {
    let mut rng = rand::thread_rng();
    for _ in 0..100_000 {
        let a: u32 = rng.gen();
        assert_eq!(f32_bits_are_nan(a), f32::from_bits(a).is_nan());
        assert_eq!(F32Bits::new(a).is_nan(), f32::from_bits(a).is_nan());
        let b: u64 = rng.gen();
        assert_eq!(f64_bits_are_nan(b), f64::from_bits(b).is_nan());
        assert_eq!(F64Bits::new(b).is_nan(), f64::from_bits(b).is_nan());
    }
    assert!(f32_bits_are_nan(f32::NAN.to_bits()));
    assert!(f32_bits_are_nan((-f32::NAN).to_bits()));
    assert!(!f32_bits_are_nan(f32::INFINITY.to_bits()));
    assert!(!f32_bits_are_nan(f32::NEG_INFINITY.to_bits()));
    assert!(f64_bits_are_nan(f64::NAN.to_bits()));
    assert!(!f64_bits_are_nan(f64::INFINITY.to_bits()));
}

#[test]
fn a_nan_lies_at_one_end_of_the_order() {
    let nan = F32Bits::new(f32::NAN.to_bits());
    let neg_nan = F32Bits::new((-f32::NAN).to_bits());
    let inf = F32Bits::new(f32::INFINITY.to_bits());
    let neg_inf = F32Bits::new(f32::NEG_INFINITY.to_bits());
    assert!(inf.less(nan));
    assert!(neg_nan.less(neg_inf));
    assert!(neg_inf.less(inf));
    assert!(!nan.less(nan));
}
