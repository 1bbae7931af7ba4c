use colorsys::converters::as_rounded_rgb_tuple;
use colorsys::hsl::{Hsl, SaturationInSpace};
use colorsys::rgb::{rgb_grayscale, GrayScaleMethod, Rgb};

#[test]
fn lighten_darken_test() {
    let asserts = [
        ((30_000, 108_000, 77_000), 20_000, (52, 188, 134)),
        ((30_000, 108_000, 77_000), 90_000, (255, 255, 255)),
        ((30_000, 108_000, 77_000), -20_000, (8, 28, 20)),
        ((0, 0, 0), 50_000, (128, 128, 128)),
        ((0, 0, 0), -50_000, (0, 0, 0)),
        ((0, 0, 0), 300_500, (255, 255, 255)),
    ];

    for a in asserts.iter() {
        let (origin, amt, result) = *a;
        let mut rgb = Rgb::from_tuple(&origin);
        rgb.lighten(amt);
        assert_eq!(as_rounded_rgb_tuple(&rgb.to_tuple()), result);
    }
}

#[test]
fn lighten_sequence() {
    let mut rgb = Rgb::from_tuple(&(30_000, 108_000, 77_000));
    rgb.lighten(20_000);
    assert_eq!(as_rounded_rgb_tuple(&rgb.to_tuple()), (52, 188, 134));
    rgb.lighten(-20_000);
    assert_eq!(as_rounded_rgb_tuple(&rgb.to_tuple()), (30, 108, 77));
    rgb.lighten(-20_000);
    assert_eq!(as_rounded_rgb_tuple(&rgb.to_tuple()), (8, 28, 20));
    rgb.lighten(301_123);
    assert_eq!(rgb.to_tuple(), (255_000, 255_000, 255_000));
}

#[test]
fn lighten_saturates_from_color() {
    let mut rgb = Rgb::from_tuple(&(30_000, 108_000, 77_000));
    rgb.lighten(301_123);
    assert_eq!(rgb.to_tuple(), (255_000, 255_000, 255_000));
    rgb.lighten(i64::MIN);
    assert_eq!(rgb.to_tuple(), (0, 0, 0));
}

#[test]
fn alpha_pass_through() {
    let rgb = Rgb::new(30_000, 108_000, 77_000, Some(300));
    let hsl = rgb.to_hsl();
    assert_eq!(hsl.get_alpha(), 300);
    let back = Rgb::from_hsl(&hsl);
    assert_eq!(back.get_alpha(), 300);
    assert_eq!(back.to_tuple_with_alpha().3, 300);

    let mut opaque = Rgb::new(1_000, 2_000, 3_000, None);
    opaque.set_alpha(1_000);
    let back = Rgb::from_hsl(&opaque.to_hsl());
    assert_eq!(back.iter().len(), 4);
    assert_eq!(back.get_alpha(), 1_000);
}

#[test]
fn rgb_constructor_normalizes() {
    let rgb = Rgb::new(-5_000, 300_000, 12_000, Some(2_000));
    assert_eq!(rgb.to_tuple(), (0, 255_000, 12_000));
    assert_eq!(rgb.iter(), vec![0, 255_000, 12_000]);
    let rgb = Rgb::from_tuple_with_alpha(&(1_000, 2_000, 3_000, 400));
    assert_eq!(rgb.iter(), vec![1_000, 2_000, 3_000, 400]);
    let rgb = Rgb::from_hex(0xffcc00);
    assert_eq!(rgb.to_tuple_with_alpha(), (255_000, 204_000, 0, 1_000));
    let rgb = Rgb::from_hex(0x1ff_00_00);
    assert_eq!(rgb.get_red(), 255_000);
    let d = Rgb::default();
    assert_eq!(d.to_tuple_with_alpha(), (0, 0, 0, 1_000));
}

#[test]
fn rgb_setters_clamp() {
    let mut rgb = Rgb::default();
    rgb.set_red(300_000);
    rgb.set_green(-1);
    rgb.set_blue(100_000);
    assert_eq!((rgb.get_red(), rgb.get_green(), rgb.get_blue()), (255_000, 0, 100_000));
    rgb.opacify(-300);
    assert_eq!(rgb.get_alpha(), 700);
    rgb.opacify(i64::MAX);
    assert_eq!(rgb.get_alpha(), 1_000);
}

#[test]
fn rgb_invert_twice() {
    let mut rgb = Rgb::new(30_000, 108_000, 77_000, Some(500));
    rgb.invert();
    assert_eq!(rgb.to_tuple_with_alpha(), (225_000, 147_000, 178_000, 500));
    rgb.invert();
    assert_eq!(rgb.to_tuple_with_alpha(), (30_000, 108_000, 77_000, 500));
}

#[test]
fn rgb_grayscale_average_prominent() {
    let mut rgb = Rgb::new(30_000, 108_000, 77_000, None);
    rgb.grayscale_simple();
    assert_eq!(rgb.to_tuple(), (69_000, 69_000, 69_000));
    let mut rgb = Rgb::new(0, 1, 0, None);
    rgb_grayscale(&mut rgb, GrayScaleMethod::AverageProminent);
    assert_eq!(rgb.to_tuple(), (1, 1, 1));
}

#[test]
fn rgb_saturate_and_adjust_hue() {
    let mut rgb = Rgb::new(30_000, 108_000, 77_000, None);
    rgb.saturate(SaturationInSpace::Hsl(-100_000));
    let (r, g, b) = rgb.to_tuple();
    assert_eq!(r, g);
    assert_eq!(g, b);
    let mut red = Rgb::new(255_000, 0, 0, None);
    red.adjust_hue(120_000);
    assert_eq!(red.to_tuple(), (0, 255_000, 0));
    red.adjust_hue(-600_000);
    assert_eq!(red.to_tuple(), (0, 0, 255_000));
}

#[test]
fn hsl_constructor_normalizes() {
    let hsl = Hsl::new(-10_000, 120_000, -3, Some(1_000));
    assert_eq!(hsl.to_tuple(), (350_000, 100_000, 0));
    assert_eq!(hsl.iter(), vec![350_000, 100_000, 0]);
    let hsl = Hsl::new(370_000, 50_000, 50_000, Some(250));
    assert_eq!(hsl.to_tuple_with_alpha(), (10_000, 50_000, 50_000, 250));
    assert_eq!(Hsl::from_tuple(&(1, 2, 3)).iter(), vec![1, 2, 3]);
    assert_eq!(Hsl::from_tuple_with_alpha(&(1, 2, 3, 4)).iter(), vec![1, 2, 3, 4]);
    assert_eq!(Hsl::default().to_tuple_with_alpha(), (0, 0, 0, 1_000));
}

#[test]
fn hsl_setters_and_transforms() {
    let mut hsl = Hsl::new(200_000, 50_000, 50_000, None);
    hsl.set_hue(-90_000);
    hsl.set_saturation(101_000);
    hsl.set_lightness(42_000);
    assert_eq!((hsl.get_hue(), hsl.get_saturation(), hsl.get_lightness()), (270_000, 100_000, 42_000));
    hsl.lighten(70_000);
    assert_eq!(hsl.get_lightness(), 100_000);
    hsl.saturate(SaturationInSpace::Hsl(-30_000));
    assert_eq!(hsl.get_saturation(), 70_000);
    hsl.adjust_hue(100_000);
    assert_eq!(hsl.get_hue(), 10_000);
    hsl.set_alpha(-5);
    assert_eq!(hsl.get_alpha(), 0);
    hsl.opacify(400);
    assert_eq!(hsl.get_alpha(), 400);
}
