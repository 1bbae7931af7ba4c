//! Normalization: keep every channel in its legal domain, whatever the input.
use vstd::prelude::*;

use crate::consts::{HUE_MAX, PERCENT_MAX, RATIO_MAX, RGB_UNIT_MAX};

verus! {

/// `x` clamped into `[lo, hi]`.
pub open spec fn clamp(x: int, lo: int, hi: int) -> int {
    if x < lo {
        lo
    } else if x > hi {
        hi
    } else {
        x
    }
}

/// A hue wrapped onto the circle `[0, 360)` degrees (Euclidean remainder).
pub open spec fn wrap_hue(h: int) -> int {
    h % (HUE_MAX as int)
}

/// Wraps a hue into `[0, 360)` degrees; negative hues wrap forward.
pub fn normalize_hue(h: i64) -> (r: i64)
    ensures
        r == wrap_hue(h as int),
        0 <= r < HUE_MAX,
{
    if h >= 0 {
        let r = (h as u64) % (HUE_MAX as u64);
        r as i64
    } else {
        let k = ((-(h + 1)) as u64) % (HUE_MAX as u64);
        let r = (HUE_MAX - 1) - (k as i64);
        proof {
            let m = HUE_MAX as int;
            let n = -(h as int + 1);
            vstd::arithmetic::div_mod::lemma_fundamental_div_mod(n, m);
            let q = n / m;
            assert(h as int == -(q + 1) * m + (m - 1 - k)) by (nonlinear_arith)
                requires
                    n == q * m + k,
                    n == -(h as int + 1),
            ;
            vstd::arithmetic::div_mod::lemma_fundamental_div_mod_converse(
                h as int,
                m,
                -(q + 1),
                m - 1 - k,
            );
        }
        r
    }
}

/// Clamps a saturation or lightness into `[0, 100]` percent.
pub fn normalize_percent(p: i64) -> (r: i64)
    ensures
        r == clamp(p as int, 0, PERCENT_MAX as int),
{
    if p < 0 {
        0
    } else if p > PERCENT_MAX {
        PERCENT_MAX
    } else {
        p
    }
}

/// Clamps an alpha into `[0, 1]`.
pub fn normalize_ratio(a: i64) -> (r: i64)
    ensures
        r == clamp(a as int, 0, RATIO_MAX as int),
{
    if a < 0 {
        0
    } else if a > RATIO_MAX {
        RATIO_MAX
    } else {
        a
    }
}


/// Clamps an RGB channel into `[0, 255]`.
pub fn normalize_rgb_unit(c: i64) -> (r: i64)
    ensures
        r == clamp(c as int, 0, RGB_UNIT_MAX as int),
{
    if c < 0 {
        0
    } else if c > RGB_UNIT_MAX {
        RGB_UNIT_MAX
    } else {
        c
    }
}

/// `x + delta` clamped into `[0, hi]`, for `x` already in `[0, hi]`, with no
/// intermediate overflow whatever `delta` is.
pub fn add_clamped(x: i64, delta: i64, hi: i64) -> (r: i64)
    requires
        0 <= x <= hi <= 1_000_000_000,
    ensures
        r == clamp(x + delta, 0, hi as int),
{
    if delta > hi {
        hi
    } else if delta < -hi {
        0
    } else {
        let y = x + delta;
        if y < 0 {
            0
        } else if y > hi {
            hi
        } else {
            y
        }
    }
}

/// `h + delta` wrapped onto the hue circle, with no intermediate overflow.
pub fn add_hue(h: i64, delta: i64) -> (r: i64)
    requires
        0 <= h < HUE_MAX,
    ensures
        r == wrap_hue(h + delta),
        0 <= r < HUE_MAX,
{
    let d = normalize_hue(delta);
    proof {
        let m = HUE_MAX as int;
        vstd::arithmetic::div_mod::lemma_add_mod_noop(h as int, delta as int, m);
        vstd::arithmetic::div_mod::lemma_add_mod_noop(h as int, d as int, m);
        vstd::arithmetic::div_mod::lemma_mod_twice(delta as int, m);
    }
    normalize_hue(h + d)
}


/// Normalizing a value twice gives what normalizing it once gives, for the
/// hue, percent, ratio and RGB channel normalizers alike.
pub proof fn lemma_normalize_idempotent(x: int)
    ensures
        wrap_hue(wrap_hue(x)) == wrap_hue(x),
        clamp(clamp(x, 0, PERCENT_MAX as int), 0, PERCENT_MAX as int) == clamp(x, 0, PERCENT_MAX as int),
        clamp(clamp(x, 0, RATIO_MAX as int), 0, RATIO_MAX as int) == clamp(x, 0, RATIO_MAX as int),
        clamp(clamp(x, 0, RGB_UNIT_MAX as int), 0, RGB_UNIT_MAX as int) == clamp(x, 0, RGB_UNIT_MAX as int),
{
    vstd::arithmetic::div_mod::lemma_mod_twice(x, HUE_MAX as int);
}

} // verus!
