use soxr::binary::{Binary32, Binary64};

#[test]
fn a_binary32_is_its_bit_pattern() {
    assert_eq!(Binary32::from_bits(0x3FC0_0000).to_bits(), 0x3FC0_0000);
    assert_eq!(f32::from_bits(Binary32::from_bits(1.5f32.to_bits()).to_bits()), 1.5);
    assert_eq!(Binary32::from_bits(7), Binary32 { bits: 7 });
    assert_ne!(Binary32::from_bits(0.0f32.to_bits()), Binary32::from_bits((-0.0f32).to_bits()));
}

#[test]
fn a_binary64_is_its_bit_pattern() {
    assert_eq!(Binary64::from_bits(0x4034_0000_0000_0000).to_bits(), 0x4034_0000_0000_0000);
    assert_eq!(f64::from_bits(Binary64::from_bits(44100.0f64.to_bits()).to_bits()), 44100.0);
    assert_eq!(Binary64::from_bits(9), Binary64 { bits: 9 });
    let nan = Binary64::from_bits(f64::NAN.to_bits());
    assert_eq!(nan, nan);
}

#[test]
fn one_is_the_number_one() {
    assert_eq!(Binary64::one().to_bits(), 0x3FF0_0000_0000_0000);
    assert_eq!(Binary64::one(), Binary64::from_bits(1.0f64.to_bits()));
}
