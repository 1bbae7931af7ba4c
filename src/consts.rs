//! Channel bounds, in thousandths of each channel's unit.
use vstd::prelude::*;

verus! {

/// Fixed-point scale: one unit of any channel is this many steps.
pub const SCALE: i64 = 1000;

/// Largest RGB channel value (255).
pub const RGB_UNIT_MAX: i64 = 255000;

/// Length of the hue circle (360 degrees).
pub const HUE_MAX: i64 = 360000;

/// Largest saturation or lightness (100 percent).
pub const PERCENT_MAX: i64 = 100000;

/// Largest alpha (1.0).
pub const RATIO_MAX: i64 = 1000;

} // verus!
