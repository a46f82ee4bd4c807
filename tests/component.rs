use palette::encoding::TransferFn;
use palette::{clamp, Component, Intensity, LinearFn};

#[test]
fn clamp_below_within_above() {
    assert_eq!(clamp(3u8, 5, 10), 5);
    assert_eq!(clamp(7u8, 5, 10), 7);
    assert_eq!(clamp(12u8, 5, 10), 10);
    assert_eq!(clamp(5u8, 5, 10), 5);
    assert_eq!(clamp(10u8, 5, 10), 10);
}

#[test]
fn clamp_twice_is_clamp_once() {
    for v in [0u16, 4, 5, 9, 10, 11, 65535] {
        let once = clamp(v, 5, 10);
        assert_eq!(clamp(once, 5, 10), once);
        assert!(once >= 5 && once <= 10);
    }
}

#[test]
fn clamp_signed() {
    assert_eq!(clamp(-4i32, -2, 2), -2);
    assert_eq!(clamp(4i32, -2, 2), 2);
    assert_eq!(clamp(1i32, -2, 2), 1);
}

#[test]
fn max_intensities() {
    assert_eq!(u8::max_intensity(), 255);
    assert_eq!(u16::max_intensity(), 65535);
    assert_eq!(u32::max_intensity(), u32::MAX);
    assert_eq!(u64::max_intensity(), u64::MAX);
    assert!(u8::LIMITED && u16::LIMITED && u32::LIMITED && u64::LIMITED);
    assert!(u8::is_limited());
}

#[test]
fn convert_u8_to_u16_scales_up() {
    assert_eq!(0u8.convert::<u16>(), 0);
    assert_eq!(1u8.convert::<u16>(), 257);
    assert_eq!(128u8.convert::<u16>(), 32896);
    assert_eq!(255u8.convert::<u16>(), 65535);
}

#[test]
fn convert_u16_to_u8_rounds_down() {
    assert_eq!(65535u16.convert::<u8>(), 255);
    assert_eq!(300u16.convert::<u8>(), 1);
    assert_eq!(256u16.convert::<u8>(), 0);
    assert_eq!(257u16.convert::<u8>(), 1);
    assert_eq!(65534u16.convert::<u8>(), 254);
}

#[test]
fn convert_to_same_type_keeps_value() {
    assert_eq!(200u8.convert::<u8>(), 200);
    assert_eq!(12345u16.convert::<u16>(), 12345);
    assert_eq!(u64::MAX.convert::<u64>(), u64::MAX);
}

#[test]
fn convert_between_wide_types() {
    assert_eq!(u64::MAX.convert::<u8>(), 255);
    assert_eq!(255u8.convert::<u64>(), u64::MAX);
    assert_eq!(1u8.convert::<u64>(), u64::MAX / 255);
    assert_eq!(u32::MAX.convert::<u16>(), 65535);
    assert_eq!(65535u16.convert::<u32>(), u32::MAX);
    assert_eq!(1u16.convert::<u32>(), 65537);
    assert_eq!(u64::MAX.convert::<u32>(), u32::MAX);
    assert_eq!((u64::MAX / 2).convert::<u32>(), u32::MAX / 2);
}

#[test]
fn intensity_widening_round_trip() {
    assert_eq!(200u8.to_wide(), 200);
    assert_eq!(u8::from_wide(200), 200);
    assert_eq!(u64::MAX.to_wide(), u64::MAX as u128);
}

#[test]
fn linear_transfer_is_identity() {
    assert_eq!(LinearFn::into_linear(0.25f32), 0.25);
    assert_eq!(LinearFn::from_linear(0.75f64), 0.75);
    assert_eq!(LinearFn::into_linear(17u8), 17);
}
