//! Exact integer conversions between RGB and HSL, and the lightness /
//! saturation adjustments built on them.
//!
//! HSL components are fixed-point: hue in hundredths of a degree
//! (`0..36000`), saturation and lightness in hundredths of a percent
//! (`0..=10000`). Each stored component is the exact value rounded down.
use vstd::prelude::*;
use crate::color::{Rgb, clamp, clamp_spec, hex_of_rgb, hex_to_rgb, is_hex_color, rgb_hex, rgb_of_hex};
use crate::error::ThemeError;

verus! {

/// A color in hue / saturation / lightness, in hundredths.
#[derive(Debug, Clone, Copy, PartialEq, Eq, Structural)]
pub struct Hsl {
    pub h: u32,
    pub s: u32,
    pub l: u32,
}

impl Hsl {
    pub open spec fn wf(&self) -> bool {
        self.h < 36000 && self.s <= 10000 && self.l <= 10000
    }
}

pub open spec fn max3(a: int, b: int, c: int) -> int {
    if a >= b && a >= c {
        a
    } else if b >= c {
        b
    } else {
        c
    }
}

pub open spec fn min3(a: int, b: int, c: int) -> int {
    if a <= b && a <= c {
        a
    } else if b <= c {
        b
    } else {
        c
    }
}

/// Six times the hue as a fraction of a turn, times `d = max - min`.
pub open spec fn hue_sixths(r: int, g: int, b: int) -> int {
    let mx = max3(r, g, b);
    let d = mx - min3(r, g, b);
    if mx == r {
        (g - b) + if g < b {
            6 * d
        } else {
            0
        }
    } else if mx == g {
        (b - r) + 2 * d
    } else {
        (r - g) + 4 * d
    }
}

/// The standard RGB to HSL conversion, each component rounded down to
/// hundredths. Gray (max == min) has hue and saturation 0.
pub open spec fn hsl_of(c: Rgb) -> Hsl {
    let (r, g, b) = (c.r as int, c.g as int, c.b as int);
    let mx = max3(r, g, b);
    let mn = min3(r, g, b);
    let sum = mx + mn;
    let d = mx - mn;
    let l = sum * 1000 / 51;
    if d == 0 {
        Hsl { h: 0, s: 0, l: l as u32 }
    } else {
        let s = if sum > 255 {
            d * 10000 / (510 - sum)
        } else {
            d * 10000 / sum
        };
        Hsl { h: (hue_sixths(r, g, b) * 6000 / d) as u32, s: s as u32, l: l as u32 }
    }
}

/// `q` of the HSL to RGB conversion, scaled by 10^8.
pub open spec fn hsl_q(s: int, l: int) -> int {
    if l < 5000 {
        l * (10000 + s)
    } else {
        l * 10000 + s * 10000 - l * s
    }
}

/// `p = 2l - q`, scaled by 10^8.
pub open spec fn hsl_p(s: int, l: int) -> int {
    2 * l * 10000 - hsl_q(s, l)
}

/// Brings a hue offset (hundredths of a degree) back into one turn.
pub open spec fn wrap_turn(t: int) -> int {
    if t < 0 {
        t + 36000
    } else if t > 36000 {
        t - 36000
    } else {
        t
    }
}

/// One channel of the HSL to RGB conversion in `[0, 1]`, scaled by
/// `6000 * 10^8`.
pub open spec fn hue_ramp(p: int, q: int, t: int) -> int {
    if t < 6000 {
        p * 6000 + (q - p) * t
    } else if t < 18000 {
        q * 6000
    } else if t < 24000 {
        p * 6000 + (q - p) * (24000 - t)
    } else {
        p * 6000
    }
}

/// `255 * v / (6000 * 10^8)`, rounded to nearest.
pub open spec fn ramp_channel(v: int) -> int {
    (510 * v + 600_000_000_000) / 1_200_000_000_000
}

/// The standard HSL to RGB conversion, each channel rounded to nearest.
pub open spec fn rgb_of_hsl(h: int, s: int, l: int) -> Rgb {
    if s == 0 {
        let v = ((510 * l + 10000) / 20000) as u8;
        Rgb { r: v, g: v, b: v }
    } else {
        let q = hsl_q(s, l);
        let p = hsl_p(s, l);
        Rgb {
            r: ramp_channel(hue_ramp(p, q, wrap_turn(h + 12000))) as u8,
            g: ramp_channel(hue_ramp(p, q, h)) as u8,
            b: ramp_channel(hue_ramp(p, q, wrap_turn(h - 12000))) as u8,
        }
    }
}

proof fn lemma_pq_bounds(s: int, l: int)
    requires
        0 <= s <= 10000,
        0 <= l <= 10000,
    ensures
        0 <= hsl_p(s, l) <= hsl_q(s, l) <= 100_000_000,
        l * s <= s * 10000,
{
    if l < 5000 {
        assert(l * (10000 + s) <= 2 * l * 10000) by (nonlinear_arith)
            requires
                0 <= l < 5000,
                0 <= s <= 10000,
        ;
        assert(l * (10000 + s) <= 100_000_000) by (nonlinear_arith)
            requires
                0 <= l < 5000,
                0 <= s <= 10000,
        ;
        assert(l * (10000 + s) >= l * 10000) by (nonlinear_arith)
            requires
                0 <= l,
                0 <= s,
        ;
    } else {
        assert(s * (10000 - l) <= l * 10000) by (nonlinear_arith)
            requires
                5000 <= l <= 10000,
                0 <= s <= 10000,
        ;
        assert(s * (10000 - l) <= 10000 * (10000 - l)) by (nonlinear_arith)
            requires
                l <= 10000,
                0 <= s <= 10000,
        ;
        assert(s * (10000 - l) >= 0) by (nonlinear_arith)
            requires
                l <= 10000,
                0 <= s,
        ;
        assert(s * (10000 - l) == s * 10000 - l * s) by (nonlinear_arith);
        assert(10000 * (10000 - l) == 100_000_000 - l * 10000) by (nonlinear_arith);
    }
    assert(l * s <= s * 10000) by (nonlinear_arith)
        requires
            0 <= s,
            l <= 10000,
    ;
}

proof fn lemma_ramp_bounds(p: int, q: int, t: int)
    requires
        0 <= p <= q <= 100_000_000,
        0 <= t <= 36000,
    ensures
        0 <= hue_ramp(p, q, t) <= q * 6000,
        0 <= ramp_channel(hue_ramp(p, q, t)) <= 255,
{
    if t < 6000 {
        assert((q - p) * t <= (q - p) * 6000) by (nonlinear_arith)
            requires
                q - p >= 0,
                t < 6000,
        ;
        assert((q - p) * t >= 0) by (nonlinear_arith)
            requires
                q - p >= 0,
                t >= 0,
        ;
    } else if t < 18000 {
    } else if t < 24000 {
        assert((q - p) * (24000 - t) <= (q - p) * 6000) by (nonlinear_arith)
            requires
                q - p >= 0,
                24000 - t <= 6000,
        ;
        assert((q - p) * (24000 - t) >= 0) by (nonlinear_arith)
            requires
                q - p >= 0,
                24000 - t >= 0,
        ;
    }
}

fn ramp(p: u64, q: u64, t: i64) -> (v: u64)
    requires
        p <= q <= 100_000_000,
        0 <= t <= 36000,
    ensures
        v == ramp_channel(hue_ramp(p as int, q as int, t as int)),
{
    proof {
        lemma_ramp_bounds(p as int, q as int, t as int);
    }
    let tu = t as u64;
    let x: u64 = if tu < 6000 {
        proof {
            assert((q - p) * t <= (q - p) * 6000) by (nonlinear_arith)
                requires
                    q - p >= 0,
                    t < 6000,
            ;
        }
        p * 6000 + (q - p) * tu
    } else if tu < 18000 {
        q * 6000
    } else if tu < 24000 {
        proof {
            assert((q - p) * (24000 - t) <= (q - p) * 6000) by (nonlinear_arith)
                requires
                    q - p >= 0,
                    24000 - t <= 6000,
            ;
        }
        p * 6000 + (q - p) * (24000 - tu)
    } else {
        p * 6000
    };
    (510 * x + 600_000_000_000) / 1_200_000_000_000
}

/// Converts a color to HSL (hundredths, rounded down).
pub fn rgb_to_hsl(r: u8, g: u8, b: u8) -> (x: Hsl)
    ensures
        x == hsl_of(Rgb { r, g, b }),
        x.wf(),
{
    let (r, g, b) = (r as u32, g as u32, b as u32);
    let mx = if r >= g && r >= b {
        r
    } else if g >= b {
        g
    } else {
        b
    };
    let mn = if r <= g && r <= b {
        r
    } else if g <= b {
        g
    } else {
        b
    };
    let sum = mx + mn;
    let d = mx - mn;
    let l = sum * 1000 / 51;
    if d == 0 {
        return Hsl { h: 0, s: 0, l };
    }
    let s = if sum > 255 {
        d * 10000 / (510 - sum)
    } else {
        d * 10000 / sum
    };
    let sixths = if mx == r {
        if g < b {
            6 * d - (b - g)
        } else {
            g - b
        }
    } else if mx == g {
        2 * d + b - r
    } else {
        4 * d + r - g
    };
    proof {
        let (di, si, xi) = (d as int, sum as int, sixths as int);
        if sum > 255 {
            assert(di * 10000 / (510 - si) <= 10000) by (nonlinear_arith)
                requires
                    0 < di <= 510 - si,
            ;
        } else {
            assert(di * 10000 / si <= 10000) by (nonlinear_arith)
                requires
                    0 < di <= si,
            ;
        }
        assert(xi < 6 * di);
        assert(xi * 6000 / di < 36000) by (nonlinear_arith)
            requires
                xi < 6 * di,
                di > 0,
                xi >= 0,
        ;
    }
    Hsl { h: sixths * 6000 / d, s, l }
}

/// Converts HSL (hundredths) to a color, each channel rounded to nearest.
pub fn hsl_to_rgb(h: u32, s: u32, l: u32) -> (c: Rgb)
    requires
        h < 36000,
        s <= 10000,
        l <= 10000,
    ensures
        c == rgb_of_hsl(h as int, s as int, l as int),
{
    if s == 0 {
        let v = ((510 * l + 10000) / 20000) as u8;
        return Rgb { r: v, g: v, b: v };
    }
    proof {
        lemma_pq_bounds(s as int, l as int);
    }
    let (s, l) = (s as u64, l as u64);
    let q: u64 = if l < 5000 {
        l * (10000 + s)
    } else {
        l * 10000 + s * 10000 - l * s
    };
    let p: u64 = 2 * l * 10000 - q;
    let h = h as i64;
    let tr = if h + 12000 > 36000 {
        h + 12000 - 36000
    } else {
        h + 12000
    };
    let tb = if h - 12000 < 0 {
        h - 12000 + 36000
    } else {
        h - 12000
    };
    proof {
        lemma_ramp_bounds(p as int, q as int, tr as int);
        lemma_ramp_bounds(p as int, q as int, h as int);
        lemma_ramp_bounds(p as int, q as int, tb as int);
    }
    Rgb { r: ramp(p, q, tr) as u8, g: ramp(p, q, h) as u8, b: ramp(p, q, tb) as u8 }
}

/// The color with its HSL lightness moved by `amount` percentage points,
/// clamped into `[0, 100]`.
pub open spec fn lightness_adjusted(c: Rgb, amount: int) -> Rgb {
    let x = hsl_of(c);
    rgb_of_hsl(x.h as int, x.s as int, clamp_spec(x.l + 100 * amount, 0, 10000))
}

/// The color with its HSL saturation moved by `amount` percentage points,
/// clamped into `[0, 100]`.
pub open spec fn saturation_adjusted(c: Rgb, amount: int) -> Rgb {
    let x = hsl_of(c);
    rgb_of_hsl(x.h as int, clamp_spec(x.s + 100 * amount, 0, 10000), x.l as int)
}

/// Both moves at once.
pub open spec fn lightness_saturation_adjusted(c: Rgb, la: int, sa: int) -> Rgb {
    let x = hsl_of(c);
    rgb_of_hsl(
        x.h as int,
        clamp_spec(x.s + 100 * sa, 0, 10000),
        clamp_spec(x.l + 100 * la, 0, 10000),
    )
}

/// `v + 100 * amount` clamped into `[0, 10000]`, for any `amount`.
fn shift_percent(v: u32, amount: i64) -> (r: u32)
    requires
        v <= 10000,
    ensures
        r == clamp_spec(v + 100 * amount, 0, 10000),
{
    let a = clamp(amount, -100, 100);
    clamp(v as i64 + 100 * a, 0, 10000) as u32
}

/// Moves the HSL lightness of a hex color by `amount` percentage points.
pub fn adjust_lightness(hexcolor: &str, amount: i64) -> (res: Result<String, ThemeError>)
    ensures
        res is Ok <==> is_hex_color(hexcolor@),
        res is Ok ==> res->Ok_0@ == hex_of_rgb(lightness_adjusted(rgb_of_hex(hexcolor@), amount as int)),
        res is Err ==> res->Err_0 == ThemeError::InvalidHex,
{
    let c = hex_to_rgb(hexcolor)?;
    let x = rgb_to_hsl(c.r, c.g, c.b);
    let l = shift_percent(x.l, amount);
    Ok(rgb_hex(hsl_to_rgb(x.h, x.s, l)))
}

/// Moves the HSL saturation of a hex color by `amount` percentage points.
pub fn adjust_saturation(hexcolor: &str, amount: i64) -> (res: Result<String, ThemeError>)
    ensures
        res is Ok <==> is_hex_color(hexcolor@),
        res is Ok ==> res->Ok_0@ == hex_of_rgb(saturation_adjusted(rgb_of_hex(hexcolor@), amount as int)),
        res is Err ==> res->Err_0 == ThemeError::InvalidHex,
{
    let c = hex_to_rgb(hexcolor)?;
    let x = rgb_to_hsl(c.r, c.g, c.b);
    let s = shift_percent(x.s, amount);
    Ok(rgb_hex(hsl_to_rgb(x.h, s, x.l)))
}

/// Moves lightness by `la` and saturation by `sa` percentage points.
pub fn adjust_lightness_and_saturation(hexcolor: &str, la: i64, sa: i64) -> (res: Result<
    String,
    ThemeError,
>)
    ensures
        res is Ok <==> is_hex_color(hexcolor@),
        res is Ok ==> res->Ok_0@ == hex_of_rgb(
            lightness_saturation_adjusted(rgb_of_hex(hexcolor@), la as int, sa as int),
        ),
        res is Err ==> res->Err_0 == ThemeError::InvalidHex,
{
    let c = hex_to_rgb(hexcolor)?;
    let x = rgb_to_hsl(c.r, c.g, c.b);
    let l = shift_percent(x.l, la);
    let s = shift_percent(x.s, sa);
    Ok(rgb_hex(hsl_to_rgb(x.h, s, l)))
}

/// Raising lightness to 100% gives white, whatever the hue and saturation.
pub proof fn lemma_full_lightness_is_white(c: Rgb, amount: int)
    requires
        hsl_of(c).l + 100 * amount >= 10000,
    ensures
        lightness_adjusted(c, amount) == (Rgb { r: 255, g: 255, b: 255 }),
{
    let x = hsl_of(c);
    let s = x.s as int;
    assert(clamp_spec(x.l + 100 * amount, 0, 10000) == 10000);
    assert(10000 * 10000 + s * 10000 - 10000 * s == 100_000_000) by (nonlinear_arith);
    assert(hsl_q(s, 10000) == 100_000_000);
    assert(hsl_p(s, 10000) == 100_000_000);
    assert forall|t: int| 0 <= t <= 36000 implies hue_ramp(100_000_000, 100_000_000, t)
        == 600_000_000_000 by {
        assert(0 * t == 0) by (nonlinear_arith);
        assert(0 * (24000 - t) == 0) by (nonlinear_arith);
    }
}

} // verus!
