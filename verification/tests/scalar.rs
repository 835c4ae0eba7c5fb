use stereo_pbr::draw::uber::{DEFAULT_EXPOSURE, DEFAULT_GAMMA};
use stereo_pbr::scalar::{NEG_ONE, NEG_TEN, ONE, TEN, TWO, ZERO};

#[test]
fn named_patterns_are_the_numbers() {
    assert_eq!(ZERO, 0.0f32.to_bits());
    assert_eq!(ONE, 1.0f32.to_bits());
    assert_eq!(TWO, 2.0f32.to_bits());
    assert_eq!(TEN, 10.0f32.to_bits());
    assert_eq!(NEG_ONE, (-1.0f32).to_bits());
    assert_eq!(NEG_TEN, (-10.0f32).to_bits());
}

#[test]
fn default_exposure_and_gamma_are_the_numbers() {
    assert_eq!(DEFAULT_EXPOSURE, 1.0f32.to_bits());
    assert_eq!(DEFAULT_GAMMA, 2.2f32.to_bits());
    assert_eq!(DEFAULT_GAMMA.to_le_bytes(), [0xCD, 0xCC, 0x0C, 0x40]);
}
