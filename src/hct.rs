//! Hue / chroma / tone.
//!
//! Hue and chroma are those of the RGB hexagon (the hue of HSL, and chroma
//! `max - min` as a share of the full range); tone is CIE L*, the perceptual
//! lightness of the WCAG relative luminance. All three are in hundredths:
//! hue `0..36000`, chroma `0..=10000` for colors of the gamut, tone
//! `0..=10000`. A color is built back at the requested hue and tone; when
//! no color of the requested chroma reaches that tone, chroma is lowered
//! until one does.
use vstd::prelude::*;
use crate::color::{Rgb, hex_of_rgb, rgb_hex};
use crate::hsl::{hsl_of, max3, min3, rgb_to_hsl};
use crate::luminance::{WHITE_LUMINANCE, lemma_luminance_mono, lemma_mul_mono, luminance, luminance_of};

verus! {

/// A color in hue / chroma / tone, in hundredths.
#[derive(Debug, Clone, Copy, PartialEq, Eq, Structural)]
pub struct Hct {
    pub h: u32,
    pub c: u32,
    pub t: u32,
}

pub open spec fn pow3(x: int) -> int {
    x * x * x
}

pub open spec fn is_root3(n: int, r: int) -> bool {
    0 <= r && pow3(r) <= n && n < pow3(r + 1)
}

/// The integer cube root of `n`, rounded down.
pub open spec fn root3(n: int) -> int {
    choose|r: int| is_root3(n, r)
}

/// `116^3` in hundredths of tone: `11600^3`.
pub open spec fn tone_cube() -> int {
    1_560_896_000_000
}

/// The luminance (units of `10^-10`) of tone `t` (hundredths of L*):
/// `((t + 16) / 116)^3` above L* = 8, `t * 27 / 24389` at or below.
pub open spec fn y_of_tone(t: int) -> int {
    if t > 800 {
        pow3(t + 1600) * 10_000_000_000 / tone_cube()
    } else {
        t * 2_700_000_000 / 24389
    }
}

/// CIE L* of a luminance, in hundredths, rounded down.
pub open spec fn tone_of_y(y: int) -> int {
    if y * 24389 <= 2_160_000_000_000 {
        y * 24389 / 2_700_000_000
    } else {
        root3(tone_cube() * y / 10_000_000_000) - 1600
    }
}

/// The color of hue `h`, `cl` levels of chroma and `m` as its smallest
/// channel; the middle channel is placed by rounding.
pub open spec fn hue_rgb(h: int, cl: int, m: int) -> Rgb {
    let f = h % 6000;
    let up = (2 * cl * f + 6000) / 12000;
    let down = (2 * cl * (6000 - f) + 6000) / 12000;
    let (r, g, b) = if h < 6000 {
        (m + cl, m + up, m)
    } else if h < 12000 {
        (m + down, m + cl, m)
    } else if h < 18000 {
        (m, m + cl, m + up)
    } else if h < 24000 {
        (m, m + down, m + cl)
    } else if h < 30000 {
        (m + up, m, m + cl)
    } else {
        (m + cl, m, m + down)
    };
    Rgb { r: r as u8, g: g as u8, b: b as u8 }
}

pub open spec fn lum_at(h: int, cl: int, m: int) -> int {
    luminance_of(hue_rgb(h, cl, m))
}

/// Some color of hue `h` and `cl` levels of chroma has luminance at least
/// `y`, and some has at most `y`.
pub open spec fn reaches(h: int, cl: int, y: int) -> bool {
    lum_at(h, cl, 0) <= y <= lum_at(h, cl, 255 - cl)
}

/// The largest chroma at most `k` levels at which luminance `y` is reached.
pub open spec fn fit_chroma(h: int, k: int, y: int) -> int
    decreases k,
{
    if k <= 0 || reaches(h, k, y) {
        k
    } else {
        fit_chroma(h, k - 1, y)
    }
}

/// The first smallest channel from `m` on whose luminance is at least `y`.
pub open spec fn first_reaching(h: int, cl: int, y: int, m: int) -> int
    decreases 255 - cl - m,
{
    if m >= 255 - cl || lum_at(h, cl, m) >= y {
        m
    } else {
        first_reaching(h, cl, y, m + 1)
    }
}

/// The smallest channel whose luminance is nearest `y` (the brighter one on
/// a tie).
pub open spec fn tone_match(h: int, cl: int, y: int) -> int {
    let m = first_reaching(h, cl, y, 0);
    if m > 0 && y - lum_at(h, cl, m - 1) < lum_at(h, cl, m) - y {
        m - 1
    } else {
        m
    }
}

/// Chroma in hundredths of a percent, as levels of 255, rounded, at most 255.
pub open spec fn chroma_levels(c: int) -> int {
    let k = (c * 255 + 5000) / 10000;
    if k > 255 {
        255
    } else {
        k
    }
}

/// The color that a hue / chroma / tone triple stands for.
pub open spec fn rgb_of_hct(h: int, c: int, t: int) -> Rgb {
    let y = y_of_tone(t);
    let cl = fit_chroma(h, chroma_levels(c), y);
    hue_rgb(h, cl, tone_match(h, cl, y))
}

/// The hue / chroma / tone of a color.
pub open spec fn hct_of(c: Rgb) -> Hct {
    let (r, g, b) = (c.r as int, c.g as int, c.b as int);
    Hct {
        h: hsl_of(c).h,
        c: ((max3(r, g, b) - min3(r, g, b)) * 10000 / 255) as u32,
        t: tone_of_y(luminance_of(c)) as u32,
    }
}

proof fn lemma_pow3_mono(a: int, b: int)
    requires
        0 <= a <= b,
    ensures
        0 <= pow3(a) <= pow3(b),
{
    lemma_mul_mono(a, b, a, b);
    lemma_mul_mono(a * a, b * b, a, b);
}

proof fn lemma_root3_unique(n: int, r: int)
    requires
        is_root3(n, r),
    ensures
        root3(n) == r,
{
    let q = root3(n);
    assert(is_root3(n, q));
    if q < r {
        lemma_pow3_mono(q + 1, r);
    }
    if r < q {
        lemma_pow3_mono(r + 1, q);
    }
}

/// The integer cube root of `n`, rounded down, by bisection.
fn root3_floor(n: u64) -> (r: u64)
    requires
        n <= 1_560_896_000_000,
    ensures
        r as int == root3(n as int),
        is_root3(n as int, r as int),
        r <= 11600,
{
    let mut lo: u64 = 0;
    let mut hi: u64 = 11601;
    while hi - lo > 1
        invariant
            lo < hi <= 11601,
            pow3(lo as int) <= n < pow3(hi as int),
        decreases hi - lo,
    {
        let mid = lo + (hi - lo) / 2;
        proof {
            let m = mid as int;
            lemma_mul_mono(m, 11601, m, 11601);
            lemma_mul_mono(m * m, 134_583_201, m, 11601);
        }
        if mid * mid * mid <= n {
            lo = mid;
        } else {
            hi = mid;
        }
    }
    proof {
        lemma_root3_unique(n as int, lo as int);
        if lo > 11600 {
            lemma_pow3_mono(11601, lo as int);
        }
    }
    lo
}

/// CIE L* of a luminance, in hundredths.
pub fn tone_of_luminance(y: u64) -> (t: u32)
    requires
        y <= WHITE_LUMINANCE,
    ensures
        t as int == tone_of_y(y as int),
        t <= 10000,
{
    if y * 24389 <= 2_160_000_000_000 {
        return (y * 24389 / 2_700_000_000) as u32;
    }
    let n = 1_560_896_000_000u128 * (y as u128) / 10_000_000_000;
    proof {
        let yi = y as int;
        assert(1_560_896_000_000 * yi / 10_000_000_000 <= 1_560_896_000_000) by (nonlinear_arith)
            requires
                0 <= yi <= 10_000_000_000,
        ;
        assert(1_560_896_000_000 * yi / 10_000_000_000 >= 4_096_000_000) by (nonlinear_arith)
            requires
                yi * 24389 > 2_160_000_000_000,
        ;
    }
    let r = root3_floor(n as u64);
    proof {
        assert(n >= 4_096_000_000);
        assert(pow3(1600) == 4_096_000_000);
        if r < 1600 {
            lemma_pow3_mono(r + 1, 1600);
        }
    }
    (r - 1600) as u32
}

/// The luminance of a tone (hundredths of L*).
pub fn luminance_of_tone(t: u32) -> (y: u64)
    requires
        t <= 10000,
    ensures
        y as int == y_of_tone(t as int),
        y <= WHITE_LUMINANCE,
{
    if t > 800 {
        let k = (t as u128) + 1600;
        proof {
            lemma_pow3_mono(k as int, 11600);
            lemma_mul_mono(k as int, 11600, k as int, 11600);
        }
        let c = k * k * k;
        proof {
            let ci = c as int;
            assert(ci * 10_000_000_000 / 1_560_896_000_000 <= 10_000_000_000) by (nonlinear_arith)
                requires
                    0 <= ci <= 1_560_896_000_000,
            ;
        }
        (c * 10_000_000_000 / 1_560_896_000_000) as u64
    } else {
        (t as u64) * 2_700_000_000 / 24389
    }
}

proof fn lemma_ramp_le(cl: int, f: int)
    requires
        0 <= cl,
        0 <= f <= 6000,
    ensures
        0 <= (2 * cl * f + 6000) / 12000 <= cl,
{
    assert(2 * cl * f <= 12000 * cl) by (nonlinear_arith)
        requires
            0 <= cl,
            f <= 6000,
    ;
    assert(0 <= 2 * cl * f) by (nonlinear_arith)
        requires
            0 <= cl,
            0 <= f,
    ;
}

/// The color of hue `h`, `cl` levels of chroma and smallest channel `m`.
pub fn hue_color(h: u32, cl: u32, m: u32) -> (c: Rgb)
    requires
        h < 36000,
        cl + m <= 255,
    ensures
        c == hue_rgb(h as int, cl as int, m as int),
{
    let f = h % 6000;
    proof {
        lemma_ramp_le(cl as int, f as int);
        lemma_ramp_le(cl as int, 6000 - f);
    }
    let up = (2 * cl * f + 6000) / 12000;
    let down = (2 * cl * (6000 - f) + 6000) / 12000;
    let (r, g, b) = if h < 6000 {
        (m + cl, m + up, m)
    } else if h < 12000 {
        (m + down, m + cl, m)
    } else if h < 18000 {
        (m, m + cl, m + up)
    } else if h < 24000 {
        (m, m + down, m + cl)
    } else if h < 30000 {
        (m + up, m, m + cl)
    } else {
        (m + cl, m, m + down)
    };
    Rgb { r: r as u8, g: g as u8, b: b as u8 }
}

fn luminance_at(h: u32, cl: u32, m: u32) -> (l: u64)
    requires
        h < 36000,
        cl + m <= 255,
    ensures
        l as int == lum_at(h as int, cl as int, m as int),
        l <= WHITE_LUMINANCE,
{
    luminance(hue_color(h, cl, m))
}

/// Builds back the color of hue `h`, chroma `c` and tone `t` (hundredths),
/// lowering chroma where the tone is out of its reach.
pub fn hct_to_rgb(h: u32, c: u32, t: u32) -> (r: Rgb)
    requires
        h < 36000,
        t <= 10000,
    ensures
        r == rgb_of_hct(h as int, c as int, t as int),
{
    let y = luminance_of_tone(t);
    let k0 = (c as u64) * 255 + 5000;
    let k0 = if k0 / 10000 > 255 {
        255u32
    } else {
        (k0 / 10000) as u32
    };
    let mut k: u32 = k0;
    while k > 0 && !(luminance_at(h, k, 0) <= y && y <= luminance_at(h, k, 255 - k))
        invariant
            k <= 255,
            h < 36000,
            fit_chroma(h as int, k as int, y as int) == fit_chroma(
                h as int,
                chroma_levels(c as int),
                y as int,
            ),
        decreases k,
    {
        k = k - 1;
    }
    assert(fit_chroma(h as int, k as int, y as int) == k);
    let mut m: u32 = 0;
    while m < 255 - k && luminance_at(h, k, m) < y
        invariant
            k <= 255,
            m <= 255 - k,
            h < 36000,
            first_reaching(h as int, k as int, y as int, m as int) == first_reaching(
                h as int,
                k as int,
                y as int,
                0,
            ),
        decreases 255 - k - m,
    {
        m = m + 1;
    }
    if m > 0 {
        let lo = luminance_at(h, k, m - 1);
        let hi = luminance_at(h, k, m);
        if (y as i128) - (lo as i128) < (hi as i128) - (y as i128) {
            m = m - 1;
        }
    }
    hue_color(h, k, m)
}

impl Hct {
    /// A hue / chroma / tone triple; hue is brought into one turn and tone
    /// into `[0, 100]`.
    pub fn from_hct(h: u32, c: u32, t: u32) -> (x: Hct)
        ensures
            x == (Hct { h: (h % 36000) as u32, c, t: if t > 10000 { 10000 } else { t } }),
    {
        Hct { h: h % 36000, c, t: if t > 10000 { 10000 } else { t } }
    }

    pub open spec fn wf(&self) -> bool {
        self.h < 36000 && self.t <= 10000
    }

    /// The color this triple stands for.
    pub fn to_rgb(&self) -> (r: Rgb)
        requires
            self.wf(),
        ensures
            r == rgb_of_hct(self.h as int, self.c as int, self.t as int),
    {
        hct_to_rgb(self.h, self.c, self.t)
    }

    /// The `#rrggbb` form of the color this triple stands for.
    pub fn to_hex(&self) -> (s: String)
        requires
            self.wf(),
        ensures
            s@ == hex_of_rgb(rgb_of_hct(self.h as int, self.c as int, self.t as int)),
    {
        rgb_hex(self.to_rgb())
    }
}

/// The hue / chroma / tone of a color.
pub fn rgb_to_hct(r: u8, g: u8, b: u8) -> (x: Hct)
    ensures
        x == hct_of(Rgb { r, g, b }),
        x.wf(),
        x.c <= 10000,
{
    let col = Rgb { r, g, b };
    let hsl = rgb_to_hsl(r, g, b);
    let (ri, gi, bi) = (r as u32, g as u32, b as u32);
    let mx = if ri >= gi && ri >= bi {
        ri
    } else if gi >= bi {
        gi
    } else {
        bi
    };
    let mn = if ri <= gi && ri <= bi {
        ri
    } else if gi <= bi {
        gi
    } else {
        bi
    };
    let t = tone_of_luminance(luminance(col));
    Hct { h: hsl.h, c: (mx - mn) * 10000 / 255, t }
}

proof fn lemma_y_of_tone_mono(t1: int, t2: int)
    requires
        0 <= t1 <= t2 <= 10000,
    ensures
        y_of_tone(t1) <= y_of_tone(t2),
    decreases
            if t1 <= 800 {
                1int
            } else {
                0int
            },
{
    if t2 <= 800 {
        vstd::arithmetic::div_mod::lemma_div_is_ordered(t1 * 2_700_000_000, t2 * 2_700_000_000, 24389);
    } else if t1 <= 800 {
        vstd::arithmetic::div_mod::lemma_div_is_ordered(t1 * 2_700_000_000, 2_160_000_000_000int, 24389);
        assert(pow3(2401) == 13841287201) by (nonlinear_arith);
        assert(y_of_tone(801) == 88675268) by (nonlinear_arith)
            requires
                pow3(2401) == 13841287201,
                y_of_tone(801) == pow3(2401) * 10_000_000_000 / tone_cube(),
                tone_cube() == 1_560_896_000_000,
        ;
        lemma_y_of_tone_mono(801, t2);
    } else {
        lemma_pow3_mono(t1 + 1600, t2 + 1600);
        vstd::arithmetic::div_mod::lemma_div_is_ordered(
            pow3(t1 + 1600) * 10_000_000_000,
            pow3(t2 + 1600) * 10_000_000_000,
            tone_cube(),
        );
    }
}

/// At one hue and chroma, a larger smallest channel is at least as bright.
proof fn lemma_lum_at_mono(h: int, cl: int, m1: int, m2: int)
    requires
        0 <= h < 36000,
        0 <= cl,
        0 <= m1 <= m2,
        m2 + cl <= 255,
    ensures
        lum_at(h, cl, m1) <= lum_at(h, cl, m2),
{
    let f = h % 6000;
    lemma_ramp_le(cl, f);
    lemma_ramp_le(cl, 6000 - f);
    lemma_luminance_mono(hue_rgb(h, cl, m1), hue_rgb(h, cl, m2));
}

proof fn lemma_first_reaching_range(h: int, cl: int, y: int, m: int)
    requires
        0 <= cl <= 255,
        0 <= m <= 255 - cl,
    ensures
        m <= first_reaching(h, cl, y, m) <= 255 - cl,
        first_reaching(h, cl, y, m) > m ==> lum_at(h, cl, first_reaching(h, cl, y, m) - 1) < y,
    decreases 255 - cl - m,
{
    if !(m >= 255 - cl || lum_at(h, cl, m) >= y) {
        lemma_first_reaching_range(h, cl, y, m + 1);
    }
}

proof fn lemma_first_reaching_mono(h: int, cl: int, y1: int, y2: int, m: int)
    requires
        0 <= cl <= 255,
        0 <= m <= 255 - cl,
        y1 <= y2,
    ensures
        first_reaching(h, cl, y1, m) <= first_reaching(h, cl, y2, m),
    decreases 255 - cl - m,
{
    lemma_first_reaching_range(h, cl, y2, m);
    if !(m >= 255 - cl || lum_at(h, cl, m) >= y1) {
        lemma_first_reaching_mono(h, cl, y1, y2, m + 1);
    }
}

/// At a fixed hue, chroma level and with luminances `y1 <= y2` to match,
/// the matched smallest channels keep their order.
proof fn lemma_tone_match_mono(h: int, cl: int, y1: int, y2: int)
    requires
        0 <= h < 36000,
        0 <= cl <= 255,
        y1 <= y2,
    ensures
        0 <= tone_match(h, cl, y1) <= tone_match(h, cl, y2) <= 255 - cl,
{
    let f1 = first_reaching(h, cl, y1, 0);
    let f2 = first_reaching(h, cl, y2, 0);
    lemma_first_reaching_range(h, cl, y1, 0);
    lemma_first_reaching_range(h, cl, y2, 0);
    lemma_first_reaching_mono(h, cl, y1, y2, 0);
}

/// Raising the tone at a fixed hue and chroma never darkens the color,
/// as long as both tones are reached at the same chroma level. Where
/// gamut mapping lowers chroma between the two tones this can fail by a
/// rounding step.
pub proof fn lemma_tone_orders_luminance(h: int, c: int, t1: int, t2: int)
    requires
        0 <= h < 36000,
        0 <= c,
        0 <= t1 <= t2 <= 10000,
        fit_chroma(h, chroma_levels(c), y_of_tone(t1)) == fit_chroma(
            h,
            chroma_levels(c),
            y_of_tone(t2),
        ),
    ensures
        luminance_of(rgb_of_hct(h, c, t1)) <= luminance_of(rgb_of_hct(h, c, t2)),
{
    let (y1, y2) = (y_of_tone(t1), y_of_tone(t2));
    lemma_y_of_tone_mono(t1, t2);
    let cl = fit_chroma(h, chroma_levels(c), y1);
    lemma_fit_chroma_range(h, chroma_levels(c), y1);
    lemma_tone_match_mono(h, cl, y1, y2);
    lemma_lum_at_mono(h, cl, tone_match(h, cl, y1), tone_match(h, cl, y2));
}

proof fn lemma_fit_chroma_range(h: int, k: int, y: int)
    requires
        0 <= k <= 255,
    ensures
        0 <= fit_chroma(h, k, y) <= k,
    decreases k,
{
    if !(k <= 0 || reaches(h, k, y)) {
        lemma_fit_chroma_range(h, k - 1, y);
    }
}

/// The chroma a color reports turns back into exactly its `max - min`
/// levels: the chroma part of the round trip loses nothing.
pub proof fn lemma_chroma_levels_round_trip(c: Rgb)
    ensures
        chroma_levels(hct_of(c).c as int) == max3(c.r as int, c.g as int, c.b as int) - min3(
            c.r as int,
            c.g as int,
            c.b as int,
        ),
{
    let d = max3(c.r as int, c.g as int, c.b as int) - min3(c.r as int, c.g as int, c.b as int);
    assert(0 <= d <= 255);
    let q = d * 10000 / 255;
    assert(d * 10000 - 255 < q * 255 <= d * 10000) by (nonlinear_arith)
        requires
            q == d * 10000 / 255,
            0 <= d,
    ;
    assert((q * 255 + 5000) / 10000 == d) by (nonlinear_arith)
        requires
            d * 10000 - 255 < q * 255 <= d * 10000,
    ;
    assert(hct_of(c).c as int == q);
}

} // verus!
