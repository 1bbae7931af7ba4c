//! Colour model conversion and manipulation (RGB, HSL, hex) on fixed-point
//! channel values.
//!
//! Every channel is an integer in thousandths of its natural unit: a red of
//! `128.5` is `128_500`, a hue of `350` degrees is `350_000`, a saturation of
//! `50.2` percent is `50_200` and an alpha of `0.3` is `300`.
use vstd::prelude::*;

pub mod consts;
pub mod normalize;
pub mod converters;
pub mod hsl;
pub mod rgb;

verus! {

} // verus!
