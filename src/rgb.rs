//! The RGB colour value, its conversions to and from HSL, and the transforms
//! that go through HSL.
use vstd::prelude::*;

use crate::consts::{PERCENT_MAX, RATIO_MAX, RGB_UNIT_MAX};
use crate::converters::{
    div_round, hex_num_to_rgb, hsl_to_rgb, hsl_to_rgb_spec, max3, min3, rgb_invert,
    rgb_to_hsl, rgb_to_hsl_spec, ColorTuple,
};
use crate::hsl::{
    alpha_new_spec, alpha_valid, alpha_value, alpha_view, hsl_valid, normalize_opt_alpha, ColorTupleA,
    Hsl, SaturationInSpace,
};
use crate::normalize::{add_clamped, clamp, normalize_ratio, normalize_rgb_unit, wrap_hue};

verus! {

/// RGB colour: channels in `[0, 255]`, optional alpha in `[0, 1]`; all in
/// thousandths.
#[derive(Clone, Copy, Debug)]
pub struct Rgb {
    r: i64,
    g: i64,
    b: i64,
    a: Option<i64>,
}

impl View for Rgb {
    /// Red, green, blue and the stored alpha.
    type V = (int, int, int, Option<int>);

    closed spec fn view(&self) -> (int, int, int, Option<int>) {
        (self.r as int, self.g as int, self.b as int, alpha_view(self.a))
    }
}

/// Every channel of an RGB model lies in its domain.
pub open spec fn rgb_model_valid(v: (int, int, int, Option<int>)) -> bool {
    &&& 0 <= v.0 <= RGB_UNIT_MAX
    &&& 0 <= v.1 <= RGB_UNIT_MAX
    &&& 0 <= v.2 <= RGB_UNIT_MAX
    &&& alpha_valid(v.3)
}

/// The RGB channels of the colour `(r, g, b)` after its HSL lightness has
/// been changed by `amt` percent (clamped).
pub open spec fn lighten_spec(r: int, g: int, b: int, amt: int) -> (int, int, int) {
    let hsl = rgb_to_hsl_spec(r, g, b);
    hsl_to_rgb_spec(hsl.0, hsl.1, clamp(hsl.2 + amt, 0, PERCENT_MAX as int))
}

/// The RGB channels of `(r, g, b)` after its HSL saturation has been changed
/// by `amt` percent (clamped).
pub open spec fn saturate_spec(r: int, g: int, b: int, amt: int) -> (int, int, int) {
    let hsl = rgb_to_hsl_spec(r, g, b);
    hsl_to_rgb_spec(hsl.0, clamp(hsl.1 + amt, 0, PERCENT_MAX as int), hsl.2)
}

/// The RGB channels of `(r, g, b)` after its hue has been rotated by `delta`.
pub open spec fn adjust_hue_spec(r: int, g: int, b: int, delta: int) -> (int, int, int) {
    let hsl = rgb_to_hsl_spec(r, g, b);
    hsl_to_rgb_spec(wrap_hue(hsl.0 + delta), hsl.1, hsl.2)
}

/// The grey level of `(r, g, b)`: the mean of the largest and smallest
/// channel, rounded to the nearest thousandth.
pub open spec fn grayscale_spec(r: int, g: int, b: int) -> int {
    div_round(max3(r, g, b) + min3(r, g, b), 2)
}

/// The HSL model of an RGB model: the channels converted, the alpha kept.
pub open spec fn hsl_model_of(v: (int, int, int, Option<int>)) -> (int, int, int, Option<int>) {
    let t = rgb_to_hsl_spec(v.0, v.1, v.2);
    (t.0, t.1, t.2, v.3)
}

/// The RGB model of an HSL model: the channels converted, the alpha kept.
pub open spec fn rgb_model_of(v: (int, int, int, Option<int>)) -> (int, int, int, Option<int>) {
    let t = hsl_to_rgb_spec(v.0, v.1, v.2);
    (t.0, t.1, t.2, v.3)
}

/// Converting RGB to HSL and back leaves the alpha exactly as it was.
pub proof fn lemma_alpha_pass_through(v: (int, int, int, Option<int>))
    requires
        rgb_model_valid(v),
    ensures
        rgb_model_of(hsl_model_of(v)).3 == v.3,
{
}

/// Inverting an RGB colour twice gives the colour back.
pub proof fn lemma_invert_twice(v: (int, int, int, Option<int>))
    requires
        rgb_model_valid(v),
    ensures
        Rgb::invert_spec(Rgb::invert_spec(v)) == v,
{
}

/// Grayscale algorithms.
#[derive(Clone, Copy, Debug, PartialEq)]
pub enum GrayScaleMethod {
    /// The mean of the most and the least prominent channel.
    AverageProminent,
}

impl Rgb {
    #[verifier::type_invariant]
    spec fn inv(&self) -> bool {
        &&& 0 <= self.r <= RGB_UNIT_MAX
        &&& 0 <= self.g <= RGB_UNIT_MAX
        &&& 0 <= self.b <= RGB_UNIT_MAX
        &&& alpha_valid(alpha_view(self.a))
    }

    /// The model that `new` builds.
    pub open spec fn new_spec(r: int, g: int, b: int, a: Option<i64>) -> (int, int, int, Option<int>) {
        (
            clamp(r, 0, RGB_UNIT_MAX as int),
            clamp(g, 0, RGB_UNIT_MAX as int),
            clamp(b, 0, RGB_UNIT_MAX as int),
            alpha_new_spec(a),
        )
    }

    /// Builds a colour, clamping each channel into its domain.
    pub fn new(r: i64, g: i64, b: i64, a: Option<i64>) -> (res: Rgb)
        ensures
            res@ == Rgb::new_spec(r as int, g as int, b as int, a),
    {
        Rgb {
            r: normalize_rgb_unit(r),
            g: normalize_rgb_unit(g),
            b: normalize_rgb_unit(b),
            a: normalize_opt_alpha(a),
        }
    }

    /// Builds a colour without alpha from an `(r, g, b)` tuple.
    pub fn from_tuple(t: &ColorTuple) -> (res: Rgb)
        ensures
            res@ == Rgb::new_spec(t.0 as int, t.1 as int, t.2 as int, None),
    {
        Rgb::new(t.0, t.1, t.2, None)
    }

    /// Builds a colour from an `(r, g, b, a)` tuple.
    pub fn from_tuple_with_alpha(t: &ColorTupleA) -> (res: Rgb)
        ensures
            res@ == Rgb::new_spec(t.0 as int, t.1 as int, t.2 as int, Some(t.3)),
    {
        Rgb::new(t.0, t.1, t.2, Some(t.3))
    }

    /// Builds a colour from a packed `0xRRGGBB` number; bits above the 24th
    /// saturate the red channel.
    pub fn from_hex(num: usize) -> (res: Rgb)
        ensures
            res@ == Rgb::new_spec(
                (num as int / 0x1_0000) * 1000,
                (num as int / 0x100) % 0x100 * 1000,
                num as int % 0x100 * 1000,
                None,
            ),
    {
        let t = hex_num_to_rgb(num);
        Rgb::from_tuple(&t)
    }

    /// The `(r, g, b)` channels.
    pub fn to_tuple(&self) -> (t: ColorTuple)
        ensures
            t.0 == self@.0,
            t.1 == self@.1,
            t.2 == self@.2,
            rgb_model_valid(self@),
    {
        proof {
            use_type_invariant(self);
        }
        (self.r, self.g, self.b)
    }

    /// The `(r, g, b, a)` channels, alpha `1` when none is stored.
    pub fn to_tuple_with_alpha(&self) -> (t: ColorTupleA)
        ensures
            t.0 == self@.0,
            t.1 == self@.1,
            t.2 == self@.2,
            t.3 == alpha_value(self@.3),
    {
        (self.r, self.g, self.b, self.get_alpha())
    }

    pub fn get_red(&self) -> (r: i64)
        ensures
            r == self@.0,
    {
        self.r
    }

    pub fn get_green(&self) -> (r: i64)
        ensures
            r == self@.1,
    {
        self.g
    }

    pub fn get_blue(&self) -> (r: i64)
        ensures
            r == self@.2,
    {
        self.b
    }

    /// The stored alpha, or `1` when none is stored.
    pub fn get_alpha(&self) -> (r: i64)
        ensures
            r == alpha_value(self@.3),
    {
        match self.a {
            Some(a) => a,
            None => RATIO_MAX,
        }
    }

    /// Sets the red channel, clamped into `[0, 255]`.
    pub fn set_red(&mut self, val: i64)
        ensures
            final(self)@ == (clamp(val as int, 0, RGB_UNIT_MAX as int), old(self)@.1, old(self)@.2, old(self)@.3),
    {
        proof {
            use_type_invariant(&*self);
        }
        *self = Rgb { r: normalize_rgb_unit(val), g: self.g, b: self.b, a: self.a };
    }

    /// Sets the green channel, clamped into `[0, 255]`.
    pub fn set_green(&mut self, val: i64)
        ensures
            final(self)@ == (old(self)@.0, clamp(val as int, 0, RGB_UNIT_MAX as int), old(self)@.2, old(self)@.3),
    {
        proof {
            use_type_invariant(&*self);
        }
        *self = Rgb { r: self.r, g: normalize_rgb_unit(val), b: self.b, a: self.a };
    }

    /// Sets the blue channel, clamped into `[0, 255]`.
    pub fn set_blue(&mut self, val: i64)
        ensures
            final(self)@ == (old(self)@.0, old(self)@.1, clamp(val as int, 0, RGB_UNIT_MAX as int), old(self)@.3),
    {
        proof {
            use_type_invariant(&*self);
        }
        *self = Rgb { r: self.r, g: self.g, b: normalize_rgb_unit(val), a: self.a };
    }

    /// Sets the alpha, clamped into `[0, 1]`; it is stored even when it is `1`.
    pub fn set_alpha(&mut self, val: i64)
        ensures
            final(self)@ == (old(self)@.0, old(self)@.1, old(self)@.2, Some(clamp(val as int, 0, RATIO_MAX as int))),
    {
        proof {
            use_type_invariant(&*self);
        }
        *self = Rgb { r: self.r, g: self.g, b: self.b, a: Some(normalize_ratio(val)) };
    }

    /// Adds `val` to the alpha that a read reports, clamped into `[0, 1]`.
    pub fn opacify(&mut self, val: i64)
        ensures
            final(self)@ == (old(self)@.0, old(self)@.1, old(self)@.2, Some(
                clamp(alpha_value(old(self)@.3) + val, 0, RATIO_MAX as int),
            )),
    {
        proof {
            use_type_invariant(&*self);
        }
        let a = add_clamped(self.get_alpha(), val, RATIO_MAX);
        *self = Rgb { r: self.r, g: self.g, b: self.b, a: Some(a) };
    }

    /// The channels in the order red, green, blue, then alpha when one is
    /// stored.
    pub fn iter(&self) -> (v: Vec<i64>)
        ensures
            v@.len() == (if self@.3 is Some { 4int } else { 3int }),
            v@[0] == self@.0,
            v@[1] == self@.1,
            v@[2] == self@.2,
            self@.3 is Some ==> v@[3] == alpha_value(self@.3),
    {
        let mut v: Vec<i64> = Vec::new();
        v.push(self.r);
        v.push(self.g);
        v.push(self.b);
        match self.a {
            Some(a) => v.push(a),
            None => {},
        }
        v
    }

    /// Converts an HSL colour to RGB; the alpha is carried over unchanged.
    pub fn from_hsl(hsl: &Hsl) -> (res: Rgb)
        ensures
            res@ == rgb_model_of(hsl@),
    {
        let (h, s, l, a) = hsl.parts();
        let t = hsl_to_rgb(&(h, s, l));
        Rgb { r: t.0, g: t.1, b: t.2, a }
    }

    /// Converts this colour to HSL; the alpha is carried over unchanged.
    pub fn to_hsl(&self) -> (res: Hsl)
        ensures
            res@ == hsl_model_of(self@),
    {
        proof {
            use_type_invariant(self);
        }
        let t = rgb_to_hsl(&(self.r, self.g, self.b));
        Hsl::from_parts(t, self.a)
    }

    /// Replaces the three channels, keeping the alpha.
    fn apply_tuple(&mut self, t: &ColorTuple)
        requires
            0 <= t.0 <= RGB_UNIT_MAX,
            0 <= t.1 <= RGB_UNIT_MAX,
            0 <= t.2 <= RGB_UNIT_MAX,
        ensures
            final(self)@ == (t.0 as int, t.1 as int, t.2 as int, old(self)@.3),
    {
        proof {
            use_type_invariant(&*self);
        }
        *self = Rgb { r: t.0, g: t.1, b: t.2, a: self.a };
    }

    /// Lightens (or, for negative `amt`, darkens) the colour by `amt` percent
    /// of HSL lightness, clamped into `[0, 100]`.
    pub fn lighten(&mut self, amt: i64)
        ensures
            (final(self)@.0, final(self)@.1, final(self)@.2) == lighten_spec(old(self)@.0, old(self)@.1, old(self)@.2, amt as int),
            final(self)@.3 == old(self)@.3,
    {
        let mut hsl = self.to_hsl();
        hsl.lighten(amt);
        let t = Rgb::from_hsl(&hsl).to_tuple();
        self.apply_tuple(&t);
    }

    /// Changes the HSL saturation by the amount in `sat`, clamped into
    /// `[0, 100]`. Only the HSL space is supported.
    pub fn saturate(&mut self, sat: SaturationInSpace)
        requires
            sat is Hsl,
        ensures
            (final(self)@.0, final(self)@.1, final(self)@.2) == saturate_spec(old(self)@.0, old(self)@.1, old(self)@.2, sat->Hsl_0 as int),
            final(self)@.3 == old(self)@.3,
    {
        let mut hsl = self.to_hsl();
        hsl.saturate(sat);
        let t = Rgb::from_hsl(&hsl).to_tuple();
        self.apply_tuple(&t);
    }

    /// Rotates the hue by `delta` degrees.
    pub fn adjust_hue(&mut self, delta: i64)
        ensures
            (final(self)@.0, final(self)@.1, final(self)@.2) == adjust_hue_spec(old(self)@.0, old(self)@.1, old(self)@.2, delta as int),
            final(self)@.3 == old(self)@.3,
    {
        let mut hsl = self.to_hsl();
        hsl.adjust_hue(delta);
        let t = Rgb::from_hsl(&hsl).to_tuple();
        self.apply_tuple(&t);
    }

    /// Turns the colour into a neutral grey with the default method.
    pub fn grayscale_simple(&mut self)
        ensures
            final(self)@ == ({
                let v = grayscale_spec(old(self)@.0, old(self)@.1, old(self)@.2);
                (v, v, v, old(self)@.3)
            }),
    {
        rgb_grayscale(self, GrayScaleMethod::AverageProminent);
    }

    /// Each channel `c` replaced by `255 - c`, the alpha kept.
    pub open spec fn invert_spec(v: (int, int, int, Option<int>)) -> (int, int, int, Option<int>) {
        (RGB_UNIT_MAX - v.0, RGB_UNIT_MAX - v.1, RGB_UNIT_MAX - v.2, v.3)
    }

    /// Inverts each channel: `255 - c`.
    pub fn invert(&mut self)
        ensures
            final(self)@ == Rgb::invert_spec(old(self)@),
    {
        proof {
            use_type_invariant(&*self);
        }
        let t = rgb_invert(&(self.r, self.g, self.b));
        self.apply_tuple(&t);
    }
}

/// Turns `rgb` into a neutral grey by the given method.
pub fn rgb_grayscale(rgb: &mut Rgb, method: GrayScaleMethod)
    ensures
        final(rgb)@ == ({
            let v = grayscale_spec(old(rgb)@.0, old(rgb)@.1, old(rgb)@.2);
            (v, v, v, old(rgb)@.3)
        }),
{
    proof {
        use_type_invariant(&*rgb);
    }
    match method {
        GrayScaleMethod::AverageProminent => {
            let (r, g, b) = rgb.to_tuple();
            let mx = if r >= g && r >= b { r } else if g >= b { g } else { b };
            let mn = if r <= g && r <= b { r } else if g <= b { g } else { b };
            let v = (mx + mn + 1) / 2;
            assert((2 * (mx + mn) + 2) / 4 == (mx + mn + 1) / 2) by (nonlinear_arith)
                requires mx + mn >= 0;
            rgb.apply_tuple(&(v, v, v));
        },
    }
}

impl Default for Rgb {
    fn default() -> (res: Rgb)
        ensures
            res@ == (0int, 0int, 0int, None::<int>),
    {
        Rgb { r: 0, g: 0, b: 0, a: None }
    }
}

} // verus!
