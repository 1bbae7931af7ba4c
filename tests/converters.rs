use colorsys::converters::{
    as_rounded_hsl_tuple, as_rounded_rgb_tuple, hex_num_to_rgb, hsl_to_rgb, invert_hue,
    rgb_invert, rgb_to_hex, rgb_to_hsl, round_ratio, ColorTuple,
};
use colorsys::normalize::{normalize_hue, normalize_percent, normalize_ratio};

fn approx_tuple(a: &ColorTuple, b: &ColorTuple, tolerance: i64) -> bool {
    (a.0 - b.0).abs() <= tolerance && (a.1 - b.1).abs() <= tolerance && (a.2 - b.2).abs() <= tolerance
}

#[test]
fn hsl_to_rgb_tst() {
    fn a(x: ColorTuple, y: ColorTuple) -> bool {
        approx_tuple(&hsl_to_rgb(&x), &y, 500)
    }

    assert!(a((200_000, 100_000, 30_000), (0, 102_000, 153_000)));
    assert!(a((192_000, 67_000, 28_000), (24_000, 100_000, 119_000)));
    assert!(a((48_000, 70_000, 50_000), (217_000, 181_000, 38_000)));
    assert!(a((359_000, 33_000, 77_000), (216_000, 177_000, 178_000)));
}

#[test]
fn hsl_to_rgb_exact_values() {
    assert_eq!(hsl_to_rgb(&(200_000, 100_000, 30_000)), (0, 102_000, 153_000));
    assert_eq!(hsl_to_rgb(&(48_000, 70_000, 50_000)), (216_750, 181_050, 38_250));
    assert_eq!(hsl_to_rgb(&(0, 100_000, 50_000)), (255_000, 0, 0));
    assert_eq!(hsl_to_rgb(&(120_000, 100_000, 50_000)), (0, 255_000, 0));
    assert_eq!(hsl_to_rgb(&(240_000, 100_000, 50_000)), (0, 0, 255_000));
}

#[test]
fn hsl_to_rgb_achromatic() {
    assert_eq!(hsl_to_rgb(&(123_000, 0, 50_000)), (127_500, 127_500, 127_500));
    assert_eq!(hsl_to_rgb(&(0, 0, 0)), (0, 0, 0));
    assert_eq!(hsl_to_rgb(&(0, 0, 100_000)), (255_000, 255_000, 255_000));
}

#[test]
fn hsl_to_rgb_wraps_hue() {
    assert_eq!(hsl_to_rgb(&(-160_000, 100_000, 30_000)), hsl_to_rgb(&(200_000, 100_000, 30_000)));
    assert_eq!(hsl_to_rgb(&(560_000, 100_000, 30_000)), hsl_to_rgb(&(200_000, 100_000, 30_000)));
}

#[test]
fn rgb_to_hsl_achromatic() {
    assert_eq!(rgb_to_hsl(&(128_000, 128_000, 128_000)), (0, 0, 50_196));
    assert_eq!(rgb_to_hsl(&(0, 0, 0)), (0, 0, 0));
    assert_eq!(rgb_to_hsl(&(255_000, 255_000, 255_000)), (0, 0, 100_000));
}

#[test]
fn rgb_to_hsl_primaries() {
    assert_eq!(rgb_to_hsl(&(255_000, 0, 0)), (0, 100_000, 50_000));
    assert_eq!(rgb_to_hsl(&(0, 255_000, 0)), (120_000, 100_000, 50_000));
    assert_eq!(rgb_to_hsl(&(0, 0, 255_000)), (240_000, 100_000, 50_000));
    assert_eq!(rgb_to_hsl(&(255_000, 204_000, 0)), (48_000, 100_000, 50_000));
}

#[test]
fn rgb_to_hsl_mixed() {
    assert_eq!(rgb_to_hsl(&(30_000, 108_000, 77_000)), (156_154, 56_522, 27_059));
    // red is the largest and blue exceeds green: the hue wraps past 300 degrees
    assert_eq!(rgb_to_hsl(&(255_000, 0, 128_000)), (329_882, 100_000, 50_000));
}

#[test]
fn round_trip_within_half_a_unit() {
    let mut r: i64 = 0;
    while r <= 255_000 {
        let mut g: i64 = 0;
        while g <= 255_000 {
            let mut b: i64 = 0;
            while b <= 255_000 {
                let x = (r, g, b);
                let back = hsl_to_rgb(&rgb_to_hsl(&x));
                assert!(approx_tuple(&back, &x, 500), "{:?} -> {:?}", x, back);
                b += 15_000;
            }
            g += 15_000;
        }
        r += 15_000;
    }
}

#[test]
fn hue_wraparound() {
    assert_eq!(normalize_hue(-10_000), 350_000);
    assert_eq!(normalize_hue(370_000), 10_000);
    assert_eq!(normalize_hue(360_000), 0);
    assert_eq!(normalize_hue(-1), 359_999);
    assert_eq!(normalize_hue(i64::MIN), normalize_hue(normalize_hue(i64::MIN)));
}

#[test]
fn normalization_idempotence() {
    for x in [-1_000_000i64, -10_000, -1, 0, 1, 500, 1_000, 99_999, 100_000, 370_000, i64::MAX] {
        assert_eq!(normalize_hue(normalize_hue(x)), normalize_hue(x));
        assert_eq!(normalize_percent(normalize_percent(x)), normalize_percent(x));
        assert_eq!(normalize_ratio(normalize_ratio(x)), normalize_ratio(x));
    }
    assert_eq!(normalize_percent(-5), 0);
    assert_eq!(normalize_percent(150_000), 100_000);
    assert_eq!(normalize_ratio(1_500), 1_000);
    assert_eq!(normalize_ratio(-3), 0);
}

#[test]
fn hex_num_unpacks_bytes() {
    assert_eq!(hex_num_to_rgb(0xffcc00), (255_000, 204_000, 0));
    assert_eq!(hex_num_to_rgb(0x123456), (0x12 * 1000, 0x34 * 1000, 0x56 * 1000));
    assert_eq!(hex_num_to_rgb(0), (0, 0, 0));
}

#[test]
fn rgb_to_hex_pads_and_lowercases() {
    let (r, g, b) = rgb_to_hex(&(255_000, 10_000, 0));
    assert_eq!((r.as_str(), g.as_str(), b.as_str()), ("ff", "0a", "00"));
    let (r, g, b) = rgb_to_hex(&(171_400, 171_500, 15_000));
    assert_eq!((r.as_str(), g.as_str(), b.as_str()), ("ab", "ac", "0f"));
}

#[test]
fn rgb_invert_involution() {
    let x = (30_000, 108_000, 77_000);
    assert_eq!(rgb_invert(&x), (225_000, 147_000, 178_000));
    assert_eq!(rgb_invert(&rgb_invert(&x)), x);
}

#[test]
fn invert_hue_involution() {
    assert_eq!(invert_hue(10_000), 190_000);
    assert_eq!(invert_hue(200_000), 20_000);
    for h in [0i64, 1, 90_000, 179_999, 180_000, 359_999] {
        assert_eq!(invert_hue(invert_hue(h)), h);
    }
}

#[test]
fn rounding_helpers() {
    assert_eq!(as_rounded_rgb_tuple(&(52_499, 187_500, 134_000)), (52, 188, 134));
    assert_eq!(as_rounded_rgb_tuple(&(-3_000, 0, 70_000_000)), (0, 0, 65_535));
    assert_eq!(as_rounded_hsl_tuple(&(156_154, 56_522, 27_059)), (156, 57, 27));
    assert_eq!(round_ratio(123), 120);
    assert_eq!(round_ratio(125), 130);
    assert_eq!(round_ratio(-125), -130);
}
