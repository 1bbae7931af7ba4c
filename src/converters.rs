//! Conversion engine: RGB <-> HSL, packed hex numbers, inversion, rounding.
use vstd::prelude::*;

use crate::consts::{HUE_MAX, PERCENT_MAX, RGB_UNIT_MAX, SCALE};
use crate::normalize::{normalize_hue, wrap_hue};

verus! {

/// Three channel values, RGB or HSL depending on context, in thousandths.
pub type ColorTuple = (i64, i64, i64);

/// `n / d` rounded to the nearest integer, halves upward (for `n >= 0`, `d > 0`).
pub open spec fn div_round(n: int, d: int) -> int {
    (2 * n + d) / (2 * d)
}

pub open spec fn max3(a: int, b: int, c: int) -> int {
    if a >= b && a >= c {
        a
    } else if b >= c {
        b
    } else {
        c
    }
}

pub open spec fn min3(a: int, b: int, c: int) -> int {
    if a <= b && a <= c {
        a
    } else if b <= c {
        b
    } else {
        c
    }
}

/// Every channel of an RGB tuple lies in `[0, 255]`.
pub open spec fn rgb_valid(t: ColorTuple) -> bool {
    &&& 0 <= t.0 <= RGB_UNIT_MAX
    &&& 0 <= t.1 <= RGB_UNIT_MAX
    &&& 0 <= t.2 <= RGB_UNIT_MAX
}

/// Saturation and lightness of an HSL tuple lie in `[0, 100]`; any hue is
/// read modulo the circle.
pub open spec fn sl_valid(t: ColorTuple) -> bool {
    &&& 0 <= t.1 <= PERCENT_MAX
    &&& 0 <= t.2 <= PERCENT_MAX
}

/// Hue of a chromatic colour before scaling, as a numerator over `max - min`
/// in sixths of the circle: the red branch is tried first, then green, then blue.
pub open spec fn hue_sextants(r: int, g: int, b: int) -> int {
    let mx = max3(r, g, b);
    let mn = min3(r, g, b);
    let delta = mx - mn;
    if r == mx {
        g - b + (if g < b { 6 * delta } else { 0 })
    } else if g == mx {
        b - r + 2 * delta
    } else {
        r - g + 4 * delta
    }
}

/// HSL (degrees, percent, percent; in thousandths) of an RGB colour, each
/// component rounded to the nearest thousandth.
pub open spec fn rgb_to_hsl_spec(r: int, g: int, b: int) -> (int, int, int) {
    let mx = max3(r, g, b);
    let mn = min3(r, g, b);
    let sum = mx + mn;
    let l = div_round(sum * PERCENT_MAX, 2 * RGB_UNIT_MAX);
    if mx == mn {
        (0, 0, l)
    } else {
        let delta = mx - mn;
        let s = if sum > RGB_UNIT_MAX {
            div_round(delta * PERCENT_MAX, 2 * RGB_UNIT_MAX - sum)
        } else {
            div_round(delta * PERCENT_MAX, sum)
        };
        let h = wrap_hue(div_round(hue_sextants(r, g, b) * (HUE_MAX / 6), delta));
        (h, s, l)
    }
}

proof fn lemma_div_round_bounded(n: int, d: int, k: int)
    requires
        0 <= n <= d * k,
        d > 0,
        k >= 0,
    ensures
        0 <= div_round(n, d) <= k,
{
    assert(2 * n + d < 2 * d * (k + 1)) by (nonlinear_arith)
        requires 0 <= n <= d * k, d > 0;
    vstd::arithmetic::div_mod::lemma_div_pos_is_pos(2 * n + d, 2 * d);
    vstd::arithmetic::div_mod::lemma_div_by_multiple_is_strongly_ordered(2 * n + d, 2 * d * (k + 1), k + 1, 2 * d);
    assert(2 * d * (k + 1) == (k + 1) * (2 * d)) by (nonlinear_arith);
    vstd::arithmetic::div_mod::lemma_div_by_multiple(k + 1, 2 * d);
}

/// Returns the larger of two channels.
fn get_max(a: i64, b: i64) -> (r: i64)
    ensures
        r == (if a >= b { a } else { b }),
{
    if a >= b {
        a
    } else {
        b
    }
}

/// Returns the smaller of two channels.
fn get_min(a: i64, b: i64) -> (r: i64)
    ensures
        r == (if a <= b { a } else { b }),
{
    if a <= b {
        a
    } else {
        b
    }
}

/// `n / d` rounded to nearest, halves upward.
fn div_round_exec(n: u64, d: u64) -> (r: u64)
    requires
        d > 0,
        n <= 0x1000_0000_0000_0000,
        d <= 0x1000_0000_0000_0000,
    ensures
        r == div_round(n as int, d as int),
{
    (2 * n + d) / (2 * d)
}

/// Converts an RGB colour to HSL. Achromatic colours (all channels equal) get
/// hue 0 and saturation 0.
pub fn rgb_to_hsl(rgb: &ColorTuple) -> (res: ColorTuple)
    requires
        rgb_valid(*rgb),
    ensures
        (res.0 as int, res.1 as int, res.2 as int) == rgb_to_hsl_spec(
            rgb.0 as int,
            rgb.1 as int,
            rgb.2 as int,
        ),
        0 <= res.0 < HUE_MAX,
        0 <= res.1 <= PERCENT_MAX,
        0 <= res.2 <= PERCENT_MAX,
{
    let (r, g, b) = *rgb;
    let mx = get_max(get_max(r, g), b);
    let mn = get_min(get_min(r, g), b);
    let sum = mx + mn;
    let l = div_round_exec((sum * PERCENT_MAX) as u64, (2 * RGB_UNIT_MAX) as u64) as i64;
    proof {
        lemma_div_round_bounded(sum * 100000, 510000, 100000);
    }
    if mx == mn {
        return (0, 0, l);
    }
    let delta = mx - mn;
    let s = if sum > RGB_UNIT_MAX {
        proof {
            assert(delta * 100000 <= (510000 - sum) * 100000) by (nonlinear_arith)
                requires delta <= 510000 - sum;
            lemma_div_round_bounded(delta * 100000, 510000 - sum, 100000);
        }
        div_round_exec((delta * PERCENT_MAX) as u64, (2 * RGB_UNIT_MAX - sum) as u64) as i64
    } else {
        proof {
            assert(delta * 100000 <= sum * 100000) by (nonlinear_arith)
                requires delta <= sum;
            lemma_div_round_bounded(delta * 100000, sum as int, 100000);
        }
        div_round_exec((delta * PERCENT_MAX) as u64, sum as u64) as i64
    };
    let sextants = if r == mx {
        g - b + (if g < b { 6 * delta } else { 0 })
    } else if g == mx {
        b - r + 2 * delta
    } else {
        r - g + 4 * delta
    };
    assert(0 <= sextants <= 6 * delta);
    let h0 = div_round_exec((sextants * (HUE_MAX / 6)) as u64, delta as u64) as i64;
    let h = normalize_hue(h0);
    (h, s, l)
}


/// Denominator of the intermediate values `temp1`, `temp2`: both are ratios
/// in `[0, 1]` times this.
pub const TEMP_DENOM: i64 = 10_000_000_000;

/// `temp1` of an HSL colour with saturation `s` and lightness `l` (percent,
/// in thousandths), over `TEMP_DENOM`.
pub open spec fn temp1_spec(s: int, l: int) -> int {
    if l < PERCENT_MAX / 2 {
        l * (PERCENT_MAX + s)
    } else {
        l * PERCENT_MAX + s * PERCENT_MAX - l * s
    }
}

/// `temp2 = 2 * l - temp1`, over `TEMP_DENOM`.
pub open spec fn temp2_spec(s: int, l: int) -> int {
    2 * l * PERCENT_MAX - temp1_spec(s, l)
}

/// One channel before scaling, over `TEMP_DENOM * 60` degrees: the piecewise
/// function of the hue-shifted unit `u` (degrees in thousandths, in `[0, 360)`),
/// with its branches in this order and strict comparisons.
pub open spec fn channel_spec(u: int, t1: int, t2: int) -> int {
    let sixth = HUE_MAX / 6;
    if u < sixth {
        t2 * sixth + (t1 - t2) * u
    } else if u < 3 * sixth {
        t1 * sixth
    } else if u < 4 * sixth {
        t2 * sixth + (t1 - t2) * (4 * sixth - u)
    } else {
        t2 * sixth
    }
}

/// Channel value scaled to `[0, 255]` (thousandths), rounded to nearest.
pub open spec fn channel_rgb(u: int, s: int, l: int) -> int {
    div_round(channel_spec(u, temp1_spec(s, l), temp2_spec(s, l)) * RGB_UNIT_MAX,
        TEMP_DENOM * (HUE_MAX / 6))
}

/// RGB of an HSL colour. Zero saturation gives a grey of `255 * l`; otherwise
/// red, green and blue use the hue shifted by `+120`, `0` and `-120` degrees.
pub open spec fn hsl_to_rgb_spec(h: int, s: int, l: int) -> (int, int, int) {
    if s == 0 {
        let v = div_round(l * RGB_UNIT_MAX, PERCENT_MAX as int);
        (v, v, v)
    } else {
        let hue = wrap_hue(h);
        (
            channel_rgb(wrap_hue(hue + HUE_MAX / 3), s, l),
            channel_rgb(hue, s, l),
            channel_rgb(wrap_hue(hue - HUE_MAX / 3), s, l),
        )
    }
}

proof fn lemma_temps(s: int, l: int)
    requires
        0 <= s <= PERCENT_MAX,
        0 <= l <= PERCENT_MAX,
    ensures
        0 <= temp2_spec(s, l) <= temp1_spec(s, l) <= TEMP_DENOM,
{
    if l < PERCENT_MAX / 2 {
        assert(0 <= l * (100000 - s)) by (nonlinear_arith)
            requires 0 <= l, s <= 100000;
        assert(l * 100000 <= l * (100000 + s) <= 10_000_000_000) by (nonlinear_arith)
            requires 0 <= l < 50000, 0 <= s <= 100000;
        assert(2 * l * 100000 - l * (100000 + s) == l * (100000 - s)) by (nonlinear_arith);
    } else {
        assert(0 <= (100000 - l) * s <= (100000 - l) * 100000) by (nonlinear_arith)
            requires 50000 <= l <= 100000, 0 <= s <= 100000;
        assert(l * 100000 + s * 100000 - l * s == l * 100000 + (100000 - l) * s)
            by (nonlinear_arith);
        assert(l * 100000 - (100000 - l) * 100000 >= 0) by (nonlinear_arith)
            requires 50000 <= l;
    }
}

proof fn lemma_channel_bounds(u: int, t1: int, t2: int)
    requires
        0 <= u < HUE_MAX,
        0 <= t2 <= t1 <= TEMP_DENOM,
    ensures
        0 <= t2 * (HUE_MAX / 6) <= channel_spec(u, t1, t2) <= t1 * (HUE_MAX / 6),
{
    if u < 60000 {
        assert(0 <= (t1 - t2) * u <= (t1 - t2) * 60000) by (nonlinear_arith)
            requires 0 <= u < 60000, t2 <= t1;
        assert(t2 * 60000 + (t1 - t2) * 60000 == t1 * 60000) by (nonlinear_arith);
    } else if u < 180000 {
    } else if u < 240000 {
        assert(0 <= (t1 - t2) * (240000 - u) <= (t1 - t2) * 60000) by (nonlinear_arith)
            requires 180000 <= u < 240000, t2 <= t1;
        assert(t2 * 60000 + (t1 - t2) * 60000 == t1 * 60000) by (nonlinear_arith);
    }
    assert(0 <= t2 * 60000) by (nonlinear_arith) requires 0 <= t2;
    assert(t2 * 60000 <= t1 * 60000) by (nonlinear_arith) requires t2 <= t1;
}

/// One RGB channel from its hue-shifted unit and the two intermediate values.
fn calc_rgb_unit(unit: i64, temp1: i64, temp2: i64) -> (r: i64)
    requires
        0 <= unit < HUE_MAX,
        0 <= temp2 <= temp1 <= TEMP_DENOM,
    ensures
        r == div_round(channel_spec(unit as int, temp1 as int, temp2 as int) * RGB_UNIT_MAX,
            TEMP_DENOM * (HUE_MAX / 6)),
        0 <= r <= RGB_UNIT_MAX,
{
    let sixth = HUE_MAX / 6;
    proof {
        lemma_channel_bounds(unit as int, temp1 as int, temp2 as int);
        assert(0 <= (temp1 - temp2) * unit <= 10_000_000_000 * 360000) by (nonlinear_arith)
            requires 0 <= unit < 360000, 0 <= temp2 <= temp1 <= 10_000_000_000;
        assert(temp1 * 60000 <= 10_000_000_000 * 60000) by (nonlinear_arith)
            requires temp1 <= 10_000_000_000;
    }
    let v = if unit < sixth {
        temp2 * sixth + (temp1 - temp2) * unit
    } else if unit < 3 * sixth {
        temp1 * sixth
    } else if unit < 4 * sixth {
        temp2 * sixth + (temp1 - temp2) * (4 * sixth - unit)
    } else {
        temp2 * sixth
    };
    assert(v == channel_spec(unit as int, temp1 as int, temp2 as int));
    proof {
        assert(0 <= v * 255 <= 600_000_000_000_000 * 255) by (nonlinear_arith)
            requires 0 <= v <= 600_000_000_000_000;
    }
    // Numerator and denominator both carry a common factor of `SCALE`.
    let r = div_round_exec((v * (RGB_UNIT_MAX / SCALE)) as u64, (TEMP_DENOM * sixth / SCALE) as u64) as i64;
    proof {
        let d = (TEMP_DENOM * sixth) as int;
        let n = v * RGB_UNIT_MAX;
        let n0 = v * 255;
        let d0 = 600_000_000_000int;
        vstd::arithmetic::div_mod::lemma_div_multiples_vanish_quotient(1000, 2 * n0 + d0, 2 * d0);
        assert(1000 * (2 * n0 + d0) == 2 * n + d) by (nonlinear_arith)
            requires n0 == v * 255, n == v * 255000, d0 == 600_000_000_000int, d == 600_000_000_000_000int;
        assert(0 <= n <= d * 255000);
        assert((2 * n + d) / (2 * d) <= 255000) by (nonlinear_arith)
            requires 0 <= n <= d * 255000, d > 0;
        assert((2 * n + d) / (2 * d) >= 0) by (nonlinear_arith)
            requires 0 <= n, d > 0;
    }
    r
}

/// Converts an HSL colour to RGB. Zero saturation takes the achromatic fast
/// path; otherwise each channel comes from the piecewise sextant function.
pub fn hsl_to_rgb(hsl: &ColorTuple) -> (res: ColorTuple)
    requires
        sl_valid(*hsl),
    ensures
        (res.0 as int, res.1 as int, res.2 as int) == hsl_to_rgb_spec(
            hsl.0 as int,
            hsl.1 as int,
            hsl.2 as int,
        ),
        rgb_valid(res),
{
    let (h, s, l) = *hsl;
    if s == 0 {
        let unit = div_round_exec((l * RGB_UNIT_MAX) as u64, PERCENT_MAX as u64) as i64;
        proof {
            let n: int = l * RGB_UNIT_MAX;
            assert(0 <= l * 255000 <= 100000 * 255000) by (nonlinear_arith)
                requires 0 <= l <= 100000;
            assert((2 * n + 100000) / 200000int <= 255000) by (nonlinear_arith)
                requires 0 <= n <= 100000 * 255000;
        }
        return (unit, unit, unit);
    }
    proof {
        lemma_temps(s as int, l as int);
        assert(0 <= l * s <= 100000 * 100000) by (nonlinear_arith)
            requires 0 <= l <= 100000, 0 <= s <= 100000;
    }
    let temp1 = if l < PERCENT_MAX / 2 {
        l * (PERCENT_MAX + s)
    } else {
        l * PERCENT_MAX + s * PERCENT_MAX - l * s
    };
    let temp2 = 2 * l * PERCENT_MAX - temp1;
    let hue = normalize_hue(h);
    let temp_r = normalize_hue(hue + HUE_MAX / 3);
    let temp_g = hue;
    let temp_b = normalize_hue(hue - HUE_MAX / 3);
    let r = calc_rgb_unit(temp_r, temp1, temp2);
    let g = calc_rgb_unit(temp_g, temp1, temp2);
    let b = calc_rgb_unit(temp_b, temp1, temp2);
    (r, g, b)
}


/// A channel value (thousandths) rounded to a whole number, halves away from
/// zero, then saturated into `u16`.
pub open spec fn round_to_u16(x: int) -> int {
    if x < 0 {
        0
    } else if (x + 500) / 1000 > 65535 {
        65535
    } else {
        (x + 500) / 1000
    }
}

fn round_channel(x: i64) -> (r: u16)
    ensures
        r as int == round_to_u16(x as int),
{
    if x < 0 {
        0
    } else if x >= 65_534_500 {
        65535
    } else {
        ((x + 500) / 1000) as u16
    }
}

/// Rounds each channel of an RGB tuple to a whole number.
pub fn as_rounded_rgb_tuple(t: &ColorTuple) -> (res: (u16, u16, u16))
    ensures
        res.0 as int == round_to_u16(t.0 as int),
        res.1 as int == round_to_u16(t.1 as int),
        res.2 as int == round_to_u16(t.2 as int),
{
    let (r, g, b) = *t;
    (round_channel(r), round_channel(g), round_channel(b))
}

/// Rounds each channel of an HSL tuple to a whole number.
pub fn as_rounded_hsl_tuple(t: &ColorTuple) -> (res: (u16, u16, u16))
    ensures
        res.0 as int == round_to_u16(t.0 as int),
        res.1 as int == round_to_u16(t.1 as int),
        res.2 as int == round_to_u16(t.2 as int),
{
    let (h, s, l) = *t;
    (round_channel(h), round_channel(s), round_channel(l))
}

/// A value in thousandths rounded to hundredths (a multiple of 10), halves
/// away from zero.
pub open spec fn round_hundredths(x: int) -> int {
    if x >= 0 {
        div_round(x, 10) * 10
    } else {
        -(div_round(-x, 10) * 10)
    }
}

/// Rounds a ratio to two decimal places.
pub fn round_ratio(r: i64) -> (res: i64)
    requires
        -1_000_000_000_000_000_000 <= r <= 1_000_000_000_000_000_000,
    ensures
        res == round_hundredths(r as int),
{
    if r >= 0 {
        (r * 2 + 10) / 20 * 10
    } else {
        -((-r * 2 + 10) / 20 * 10)
    }
}

/// Unpacks a 24-bit number into its bytes: red is everything above bit 16,
/// green bits 8 to 15, blue bits 0 to 7.
pub fn hex_num_to_rgb(num: usize) -> (res: ColorTuple)
    ensures
        res.0 == (num as int / 0x1_0000) * SCALE,
        res.1 == (num as int / 0x100) % 0x100 * SCALE,
        res.2 == num as int % 0x100 * SCALE,
{
    let n = num as u64;
    let r = n >> 16u64;
    let g = (n >> 8u64) & 0xFFu64;
    let b = n & 0xFFu64;
    assert(r == n / 0x1_0000) by (bit_vector)
        requires r == n >> 16u64;
    assert(g == (n / 0x100) % 0x100) by (bit_vector)
        requires g == (n >> 8u64) & 0xFFu64;
    assert(b == n % 0x100) by (bit_vector)
        requires b == n & 0xFFu64;
    assert(r <= 0xFFFF_FFFF_FFFF) by (bit_vector)
        requires r == n >> 16u64;
    ((r as i64) * SCALE, (g as i64) * SCALE, (b as i64) * SCALE)
}

/// Inverts each channel of an RGB colour: `255 - c`.
pub fn rgb_invert(rgb: &ColorTuple) -> (res: ColorTuple)
    requires
        rgb_valid(*rgb),
    ensures
        res.0 == RGB_UNIT_MAX - rgb.0,
        res.1 == RGB_UNIT_MAX - rgb.1,
        res.2 == RGB_UNIT_MAX - rgb.2,
        rgb_valid(res),
{
    let (r, g, b) = *rgb;
    (RGB_UNIT_MAX - r, RGB_UNIT_MAX - g, RGB_UNIT_MAX - b)
}

/// The opposite hue: `(hue + 180) mod 360`.
pub open spec fn invert_hue_spec(h: int) -> int {
    wrap_hue(h + HUE_MAX / 2)
}

/// Returns the hue opposite `hue` on the circle.
pub fn invert_hue(hue: i64) -> (res: i64)
    ensures
        res == invert_hue_spec(hue as int),
        0 <= res < HUE_MAX,
{
    let h = normalize_hue(hue);
    proof {
        vstd::arithmetic::div_mod::lemma_add_mod_noop(hue as int, HUE_MAX / 2, HUE_MAX as int);
        vstd::arithmetic::div_mod::lemma_mod_twice(hue as int, HUE_MAX as int);
        vstd::arithmetic::div_mod::lemma_add_mod_noop(h as int, HUE_MAX / 2, HUE_MAX as int);
    }
    normalize_hue(h + HUE_MAX / 2)
}


/// The lowercase hexadecimal digit for `d < 16`.
pub open spec fn hex_char(d: int) -> char {
    if d < 10 {
        ('0' as int + d) as char
    } else {
        ('a' as int + d - 10) as char
    }
}

/// Two lowercase hexadecimal digits, zero-padded, for `n < 256`.
pub open spec fn hex_pair(n: int) -> Seq<char> {
    seq![hex_char(n / 16), hex_char(n % 16)]
}

fn hex_digit(d: u16) -> (r: &'static str)
    requires
        d < 16,
    ensures
        r@ == seq![hex_char(d as int)],
{
    if d == 0 {
        proof {
            reveal_strlit("0");
        }
        "0"
    } else if d == 1 {
        proof {
            reveal_strlit("1");
        }
        "1"
    } else if d == 2 {
        proof {
            reveal_strlit("2");
        }
        "2"
    } else if d == 3 {
        proof {
            reveal_strlit("3");
        }
        "3"
    } else if d == 4 {
        proof {
            reveal_strlit("4");
        }
        "4"
    } else if d == 5 {
        proof {
            reveal_strlit("5");
        }
        "5"
    } else if d == 6 {
        proof {
            reveal_strlit("6");
        }
        "6"
    } else if d == 7 {
        proof {
            reveal_strlit("7");
        }
        "7"
    } else if d == 8 {
        proof {
            reveal_strlit("8");
        }
        "8"
    } else if d == 9 {
        proof {
            reveal_strlit("9");
        }
        "9"
    } else if d == 10 {
        proof {
            reveal_strlit("a");
        }
        "a"
    } else if d == 11 {
        proof {
            reveal_strlit("b");
        }
        "b"
    } else if d == 12 {
        proof {
            reveal_strlit("c");
        }
        "c"
    } else if d == 13 {
        proof {
            reveal_strlit("d");
        }
        "d"
    } else if d == 14 {
        proof {
            reveal_strlit("e");
        }
        "e"
    } else {
        proof {
            reveal_strlit("f");
        }
        "f"
    }
}

fn to_hex(c: i64) -> (r: String)
    requires
        0 <= c <= RGB_UNIT_MAX,
    ensures
        r@ == hex_pair(round_to_u16(c as int)),
{
    let n = round_channel(c);
    let mut s = String::from_str(hex_digit(n / 16));
    s.append(hex_digit(n % 16));
    assert(s@ =~= hex_pair(n as int));
    s
}

/// Formats each channel, rounded to a whole number, as two lowercase
/// hexadecimal digits.
pub fn rgb_to_hex(rgb: &ColorTuple) -> (res: (String, String, String))
    requires
        rgb_valid(*rgb),
    ensures
        res.0@ == hex_pair(round_to_u16(rgb.0 as int)),
        res.1@ == hex_pair(round_to_u16(rgb.1 as int)),
        res.2@ == hex_pair(round_to_u16(rgb.2 as int)),
{
    let (r, g, b) = *rgb;
    (to_hex(r), to_hex(g), to_hex(b))
}


/// Inverting an RGB colour twice gives the colour back.
pub proof fn lemma_rgb_invert_involution(t: ColorTuple)
    requires
        rgb_valid(t),
    ensures
        RGB_UNIT_MAX - (RGB_UNIT_MAX - t.0) == t.0,
        RGB_UNIT_MAX - (RGB_UNIT_MAX - t.1) == t.1,
        RGB_UNIT_MAX - (RGB_UNIT_MAX - t.2) == t.2,
{
}

/// Inverting a hue twice gives the hue back.
pub proof fn lemma_invert_hue_involution(h: int)
    requires
        0 <= h < HUE_MAX,
    ensures
        invert_hue_spec(invert_hue_spec(h)) == h,
{
    let m = HUE_MAX as int;
    vstd::arithmetic::div_mod::lemma_add_mod_noop(h + m / 2, m / 2, m);
    vstd::arithmetic::div_mod::lemma_mod_twice(h + m / 2, m);
    vstd::arithmetic::div_mod::lemma_mod_add_multiples_vanish(h, m);
    vstd::arithmetic::div_mod::lemma_small_mod(h as nat, m as nat);
    vstd::arithmetic::div_mod::lemma_small_mod((m / 2) as nat, m as nat);
    assert(h + m / 2 + m / 2 == m + h);
}

} // verus!
