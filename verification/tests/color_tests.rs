use vimbrowse::color::{hsv_to_rgb, pack_rgb};

#[test]
fn hue_zero_is_red() {
    assert_eq!(hsv_to_rgb(0, 255, 255), (255, 0, 0));
}

#[test]
fn hue_sixty_is_yellow() {
    assert_eq!(hsv_to_rgb(60_000, 255, 255), (255, 255, 0));
}

#[test]
fn hue_one_twenty_is_green() {
    assert_eq!(hsv_to_rgb(120_000, 255, 255), (0, 255, 0));
}

#[test]
fn hue_two_forty_is_blue() {
    assert_eq!(hsv_to_rgb(240_000, 255, 255), (0, 0, 255));
}

#[test]
fn zero_saturation_full_value_is_white() {
    // Whatever the hue, zero saturation at full value gives white.
    for h in [0u32, 45_000, 90_000, 180_000, 270_000, 359_999] {
        assert_eq!(hsv_to_rgb(h, 0, 255), (255, 255, 255));
    }
}

#[test]
fn zero_value_is_black() {
    assert_eq!(hsv_to_rgb(123_456, 255, 0), (0, 0, 0));
}

#[test]
fn matches_reference_conversion_at_exact_hues() {
    // The integer conversion agrees with the floating-point reference at
    // hues whose sector fractions are exactly representable.
    for deg in [0u32, 30, 60, 90, 120, 150, 180, 210, 240, 270, 300, 330] {
        let ours = hsv_to_rgb(deg * 1000, 255, 255);
        let reference = hsv::hsv_to_rgb(deg as f64, 1.0, 1.0);
        assert_eq!(ours, reference, "hue {deg}");
    }
    let white = hsv::hsv_to_rgb(77.0, 0.0, 1.0);
    assert_eq!(hsv_to_rgb(77_000, 0, 255), white);
}

#[test]
fn pack_rgb_lays_out_channels() {
    assert_eq!(pack_rgb(0xAB, 0xCD, 0xEF), 0x00AB_CDEF);
    assert_eq!(pack_rgb(255, 0, 0), 0x00FF_0000);
    assert_eq!(pack_rgb(0, 0, 0), 0);
}
