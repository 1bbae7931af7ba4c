//! The HSL (hue, saturation, lightness) colour value.
use vstd::prelude::*;

use crate::consts::{HUE_MAX, PERCENT_MAX, RATIO_MAX};
use crate::converters::ColorTuple;
use crate::normalize::{
    add_clamped, add_hue, clamp, normalize_hue, normalize_percent, normalize_ratio, wrap_hue,
};

verus! {

/// A tuple of three channels and an alpha, all in thousandths.
pub type ColorTupleA = (i64, i64, i64, i64);

/// An optional alpha as a mathematical value.
pub open spec fn alpha_view(a: Option<i64>) -> Option<int> {
    match a {
        Some(x) => Some(x as int),
        None => None,
    }
}

/// The alpha a constructor stores: clamped into `[0, 1]`, and absent when it
/// comes out fully opaque.
pub open spec fn alpha_new_spec(a: Option<i64>) -> Option<int> {
    match a {
        Some(x) => {
            let c = clamp(x as int, 0, RATIO_MAX as int);
            if c == RATIO_MAX { None } else { Some(c) }
        },
        None => None,
    }
}

/// The alpha that a read reports: `1` when none is stored.
pub open spec fn alpha_value(a: Option<int>) -> int {
    match a {
        Some(x) => x,
        None => RATIO_MAX as int,
    }
}

/// An alpha is absent or in `[0, 1]`.
pub open spec fn alpha_valid(a: Option<int>) -> bool {
    match a {
        Some(x) => 0 <= x <= RATIO_MAX,
        None => true,
    }
}

pub fn normalize_opt_alpha(a: Option<i64>) -> (r: Option<i64>)
    ensures
        alpha_view(r) == alpha_new_spec(a),
{
    match a {
        Some(x) => {
            let c = normalize_ratio(x);
            if c == RATIO_MAX {
                None
            } else {
                Some(c)
            }
        },
        None => None,
    }
}

/// Tag selecting the colour space in which saturation is changed. Only the
/// HSL space is supported.
#[derive(Clone, Copy, Debug, PartialEq)]
pub enum SaturationInSpace {
    Hsl(i64),
    Hsv(i64),
}

/// HSL colour: hue in `[0, 360)` degrees, saturation and lightness in
/// `[0, 100]` percent, optional alpha in `[0, 1]`; all in thousandths.
#[derive(Clone, Copy, Debug)]
pub struct Hsl {
    h: i64,
    s: i64,
    l: i64,
    a: Option<i64>,
}

impl View for Hsl {
    /// Hue, saturation, lightness and the stored alpha.
    type V = (int, int, int, Option<int>);

    closed spec fn view(&self) -> (int, int, int, Option<int>) {
        (self.h as int, self.s as int, self.l as int, alpha_view(self.a))
    }
}

/// Every channel of an HSL model lies in its domain.
pub open spec fn hsl_valid(v: (int, int, int, Option<int>)) -> bool {
    &&& 0 <= v.0 < HUE_MAX
    &&& 0 <= v.1 <= PERCENT_MAX
    &&& 0 <= v.2 <= PERCENT_MAX
    &&& alpha_valid(v.3)
}

impl Hsl {
    #[verifier::type_invariant]
    spec fn inv(&self) -> bool {
        &&& 0 <= self.h < HUE_MAX
        &&& 0 <= self.s <= PERCENT_MAX
        &&& 0 <= self.l <= PERCENT_MAX
        &&& alpha_valid(alpha_view(self.a))
    }

    /// Builds a colour, wrapping the hue and clamping the other channels.
    pub fn new(h: i64, s: i64, l: i64, a: Option<i64>) -> (r: Hsl)
        ensures
            r@ == (wrap_hue(h as int), clamp(s as int, 0, PERCENT_MAX as int), clamp(
                l as int,
                0,
                PERCENT_MAX as int,
            ), alpha_new_spec(a)),
    {
        Hsl { h: normalize_hue(h), s: normalize_percent(s), l: normalize_percent(l), a: normalize_opt_alpha(a) }
    }

    /// Builds a colour from already valid channels, keeping the alpha as given.
    pub(crate) fn from_parts(t: ColorTuple, a: Option<i64>) -> (r: Hsl)
        requires
            hsl_valid((t.0 as int, t.1 as int, t.2 as int, alpha_view(a))),
        ensures
            r@ == (t.0 as int, t.1 as int, t.2 as int, alpha_view(a)),
    {
        Hsl { h: t.0, s: t.1, l: t.2, a }
    }

    /// Builds a colour without alpha from an `(h, s, l)` tuple.
    pub fn from_tuple(t: &ColorTuple) -> (r: Hsl)
        ensures
            r@ == Hsl::new_spec(t.0 as int, t.1 as int, t.2 as int, None),
    {
        Hsl::new(t.0, t.1, t.2, None)
    }

    /// Builds a colour from an `(h, s, l, a)` tuple.
    pub fn from_tuple_with_alpha(t: &ColorTupleA) -> (r: Hsl)
        ensures
            r@ == Hsl::new_spec(t.0 as int, t.1 as int, t.2 as int, Some(t.3)),
    {
        Hsl::new(t.0, t.1, t.2, Some(t.3))
    }

    /// The model that `new` builds.
    pub open spec fn new_spec(h: int, s: int, l: int, a: Option<i64>) -> (int, int, int, Option<int>) {
        (wrap_hue(h), clamp(s, 0, PERCENT_MAX as int), clamp(l, 0, PERCENT_MAX as int), alpha_new_spec(a))
    }

    /// The channels and the stored alpha.
    pub(crate) fn parts(&self) -> (r: (i64, i64, i64, Option<i64>))
        ensures
            (r.0 as int, r.1 as int, r.2 as int, alpha_view(r.3)) == self@,
            hsl_valid(self@),
    {
        proof {
            use_type_invariant(self);
        }
        (self.h, self.s, self.l, self.a)
    }

    /// The `(h, s, l)` channels.
    pub fn to_tuple(&self) -> (t: ColorTuple)
        ensures
            t.0 == self@.0,
            t.1 == self@.1,
            t.2 == self@.2,
    {
        (self.h, self.s, self.l)
    }

    /// The `(h, s, l, a)` channels, alpha `1` when none is stored.
    pub fn to_tuple_with_alpha(&self) -> (t: ColorTupleA)
        ensures
            t.0 == self@.0,
            t.1 == self@.1,
            t.2 == self@.2,
            t.3 == alpha_value(self@.3),
    {
        (self.h, self.s, self.l, self.get_alpha())
    }

    pub fn get_hue(&self) -> (r: i64)
        ensures
            r == self@.0,
    {
        self.h
    }

    pub fn get_saturation(&self) -> (r: i64)
        ensures
            r == self@.1,
    {
        self.s
    }

    pub fn get_lightness(&self) -> (r: i64)
        ensures
            r == self@.2,
    {
        self.l
    }

    /// The stored alpha, or `1` when none is stored.
    pub fn get_alpha(&self) -> (r: i64)
        ensures
            r == alpha_value(self@.3),
    {
        match self.a {
            Some(a) => a,
            None => RATIO_MAX,
        }
    }

    /// Sets the hue, wrapped onto the circle.
    pub fn set_hue(&mut self, val: i64)
        ensures
            final(self)@ == (wrap_hue(val as int), old(self)@.1, old(self)@.2, old(self)@.3),
    {
        proof {
            use_type_invariant(&*self);
        }
        *self = Hsl { h: normalize_hue(val), s: self.s, l: self.l, a: self.a };
    }

    /// Sets the saturation, clamped into `[0, 100]`.
    pub fn set_saturation(&mut self, val: i64)
        ensures
            final(self)@ == (old(self)@.0, clamp(val as int, 0, PERCENT_MAX as int), old(self)@.2, old(self)@.3),
    {
        proof {
            use_type_invariant(&*self);
        }
        *self = Hsl { h: self.h, s: normalize_percent(val), l: self.l, a: self.a };
    }

    /// Sets the lightness, clamped into `[0, 100]`.
    pub fn set_lightness(&mut self, val: i64)
        ensures
            final(self)@ == (old(self)@.0, old(self)@.1, clamp(val as int, 0, PERCENT_MAX as int), old(self)@.3),
    {
        proof {
            use_type_invariant(&*self);
        }
        *self = Hsl { h: self.h, s: self.s, l: normalize_percent(val), a: self.a };
    }

    /// Sets the alpha, clamped into `[0, 1]`; it is stored even when it is `1`.
    pub fn set_alpha(&mut self, val: i64)
        ensures
            final(self)@ == (old(self)@.0, old(self)@.1, old(self)@.2, Some(clamp(val as int, 0, RATIO_MAX as int))),
    {
        proof {
            use_type_invariant(&*self);
        }
        *self = Hsl { h: self.h, s: self.s, l: self.l, a: Some(normalize_ratio(val)) };
    }

    /// Adds `val` to the alpha that a read reports, clamped into `[0, 1]`.
    pub fn opacify(&mut self, val: i64)
        ensures
            final(self)@ == (old(self)@.0, old(self)@.1, old(self)@.2, Some(
                clamp(alpha_value(old(self)@.3) + val, 0, RATIO_MAX as int),
            )),
    {
        proof {
            use_type_invariant(&*self);
        }
        let a = add_clamped(self.get_alpha(), val, RATIO_MAX);
        *self = Hsl { h: self.h, s: self.s, l: self.l, a: Some(a) };
    }

    /// The channels in the order hue, saturation, lightness, then alpha when
    /// one is stored.
    pub fn iter(&self) -> (v: Vec<i64>)
        ensures
            v@.len() == (if self@.3 is Some { 4int } else { 3int }),
            v@[0] == self@.0,
            v@[1] == self@.1,
            v@[2] == self@.2,
            self@.3 is Some ==> v@[3] == alpha_value(self@.3),
    {
        let mut v: Vec<i64> = Vec::new();
        v.push(self.h);
        v.push(self.s);
        v.push(self.l);
        match self.a {
            Some(a) => v.push(a),
            None => {},
        }
        v
    }

    /// Adds `amt` percent to the lightness, clamped into `[0, 100]`.
    pub fn lighten(&mut self, amt: i64)
        ensures
            final(self)@ == (old(self)@.0, old(self)@.1, clamp(old(self)@.2 + amt, 0, PERCENT_MAX as int), old(self)@.3),
    {
        proof {
            use_type_invariant(&*self);
        }
        let l = add_clamped(self.l, amt, PERCENT_MAX);
        *self = Hsl { h: self.h, s: self.s, l, a: self.a };
    }

    /// Changes the saturation by the amount in `sat`, clamped into `[0, 100]`.
    /// Only the HSL space is supported.
    pub fn saturate(&mut self, sat: SaturationInSpace)
        requires
            sat is Hsl,
        ensures
            final(self)@ == (old(self)@.0, clamp(old(self)@.1 + sat->Hsl_0, 0, PERCENT_MAX as int), old(self)@.2, old(self)@.3),
    {
        proof {
            use_type_invariant(&*self);
        }
        match sat {
            SaturationInSpace::Hsl(amt) => {
                let s = add_clamped(self.s, amt, PERCENT_MAX);
                *self = Hsl { h: self.h, s, l: self.l, a: self.a };
            },
            SaturationInSpace::Hsv(_) => {},
        }
    }

    /// Rotates the hue by `delta` degrees, wrapping onto the circle.
    pub fn adjust_hue(&mut self, delta: i64)
        ensures
            final(self)@ == (wrap_hue(old(self)@.0 + delta), old(self)@.1, old(self)@.2, old(self)@.3),
    {
        proof {
            use_type_invariant(&*self);
        }
        let h = add_hue(self.h, delta);
        *self = Hsl { h, s: self.s, l: self.l, a: self.a };
    }
}

impl Default for Hsl {
    fn default() -> (r: Hsl)
        ensures
            r@ == (0int, 0int, 0int, None::<int>),
    {
        Hsl { h: 0, s: 0, l: 0, a: None }
    }
}

} // verus!
