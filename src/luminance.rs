//! Relative luminance, contrast ratio and legible text colors, in exact
//! integer fixed point.
//!
//! A linearized channel is in millionths (`0..=1_000_000`), a luminance in
//! units of `10^-10` (`0..=10^10`), and a contrast ratio in thousandths
//! (`1000` is `1:1`, `21000` is `21:1`), each rounded down.
use vstd::prelude::*;
use crate::color::{Rgb, hex_to_rgb, is_hex_color, rgb_of_hex};
use crate::error::ThemeError;

verus! {

/// Luminance of pure white.
pub const WHITE_LUMINANCE: u64 = 10_000_000_000;

/// The `0.05` flare term of the contrast formula, in luminance units.
pub const FLARE: u64 = 500_000_000;

/// Luminance above which a color counts as light (`0.5`).
pub const LIGHT_THRESHOLD: u64 = 5_000_000_000;

/// The least contrast, in thousandths, that text must have (`4.5:1`).
pub const MIN_TEXT_CONTRAST: u64 = 4500;

pub open spec fn pow5(x: int) -> int {
    x * x * x * x * x
}

pub open spec fn is_root5(n: int, r: int) -> bool {
    0 <= r && pow5(r) <= n && n < pow5(r + 1)
}

/// The integer fifth root of `n`, rounded down.
pub open spec fn root5(n: int) -> int {
    choose|r: int| is_root5(n, r)
}

/// `255^2 * 1.055^2` scaled to integers: the square of the denominator of
/// `(v / 255 + 0.055) / 1.055`, which is `(1000 v + 14025) / 269025`.
pub open spec fn gamma_den() -> int {
    72_374_450_625
}

pub open spec fn gamma_num(v: int) -> int {
    (1000 * v + 14025) * (1000 * v + 14025)
}

/// The sRGB transfer function in millionths: `v / 255 / 12.92` for
/// `v / 255 <= 0.03928`, else `((v / 255 + 0.055) / 1.055)^2.4`, computed as
/// `c^2 * (c^2)^(1/5)` with the fifth root taken at five decimals.
pub open spec fn linear_of(v: int) -> int {
    if v <= 10 {
        v * 100_000_000 / 329_460
    } else {
        10 * gamma_num(v) * root5(10_000_000_000_000_000_000_000_000 * gamma_num(v) / gamma_den())
            / gamma_den()
    }
}

/// WCAG relative luminance with weights 0.2126 / 0.7152 / 0.0722.
pub open spec fn luminance_of(c: Rgb) -> int {
    2126 * linear_of(c.r as int) + 7152 * linear_of(c.g as int) + 722 * linear_of(c.b as int)
}

/// `(bright + 0.05) / (dark + 0.05)` in thousandths, rounded down.
pub open spec fn contrast_of(la: int, lb: int) -> int {
    let (bright, dark) = if la >= lb {
        (la, lb)
    } else {
        (lb, la)
    };
    (bright + FLARE) * 1000 / (dark + FLARE)
}

pub open spec fn hex_luminance(s: Seq<char>) -> int {
    luminance_of(rgb_of_hex(s))
}

pub open spec fn is_light(c: Rgb) -> bool {
    luminance_of(c) > LIGHT_THRESHOLD
}

/// Black or white text on `c`, whichever the luminance calls for; a
/// near-black or near-white when the pure one misses `4.5:1`.
pub open spec fn on_color_of(c: Rgb) -> Seq<char> {
    let l = luminance_of(c);
    if l > LIGHT_THRESHOLD {
        if contrast_of(l, 0) >= MIN_TEXT_CONTRAST {
            "#000000"@
        } else {
            "#1c1b1f"@
        }
    } else {
        if contrast_of(l, WHITE_LUMINANCE as int) >= MIN_TEXT_CONTRAST {
            "#ffffff"@
        } else {
            "#e6e1e5"@
        }
    }
}

pub proof fn lemma_mul_mono(a: int, b: int, x: int, y: int)
    requires
        0 <= a <= b,
        0 <= x <= y,
    ensures
        0 <= a * x <= b * y,
{
    assert(a * x <= b * x) by (nonlinear_arith)
        requires
            a <= b,
            0 <= x,
    ;
    assert(b * x <= b * y) by (nonlinear_arith)
        requires
            x <= y,
            0 <= b,
    ;
    assert(0 <= a * x) by (nonlinear_arith)
        requires
            0 <= a,
            0 <= x,
    ;
}

pub proof fn lemma_pow5_mono(a: int, b: int)
    requires
        0 <= a <= b,
    ensures
        0 <= pow5(a) <= pow5(b),
{
    lemma_mul_mono(a, b, a, b);
    lemma_mul_mono(a * a, b * b, a, b);
    lemma_mul_mono(a * a * a, b * b * b, a, b);
    lemma_mul_mono(a * a * a * a, b * b * b * b, a, b);
}

pub proof fn lemma_root5_unique(n: int, r: int)
    requires
        is_root5(n, r),
    ensures
        root5(n) == r,
{
    let q = root5(n);
    assert(is_root5(n, q));
    if q < r {
        lemma_pow5_mono(q + 1, r);
    }
    if r < q {
        lemma_pow5_mono(r + 1, q);
    }
}

/// `root5(n) <= 100000` when `n <= 10^25`.
pub proof fn lemma_root5_bound(n: int)
    requires
        0 <= n <= 10_000_000_000_000_000_000_000_000,
    ensures
        0 <= root5(n) <= 100_000,
{
    assert(pow5(0) <= n < pow5(131072));
    let _witness = root5_search(n, 0, 131072);
    let q = root5(n);
    assert(is_root5(n, q));
    if q > 100_000 {
        lemma_pow5_mono(100_001, q);
        assert(pow5(100_001) > 10_000_000_000_000_000_000_000_000);
    }
}

proof fn root5_search(n: int, lo: int, hi: int) -> (r: int)
    requires
        0 <= lo < hi,
        pow5(lo) <= n < pow5(hi),
    ensures
        is_root5(n, r),
    decreases hi - lo,
{
    if hi - lo == 1 {
        lo
    } else {
        let mid = lo + (hi - lo) / 2;
        if pow5(mid) <= n {
            root5_search(n, mid, hi)
        } else {
            root5_search(n, lo, mid)
        }
    }
}

/// The integer fifth root of `n`, rounded down, by bisection.
fn root5_floor(n: u128) -> (r: u128)
    requires
        n <= 10_000_000_000_000_000_000_000_000,
    ensures
        r as int == root5(n as int),
        r <= 100_000,
{
    let mut lo: u128 = 0;
    let mut hi: u128 = 131072;
    assert(pow5(131072) > 10_000_000_000_000_000_000_000_000);
    while hi - lo > 1
        invariant
            lo < hi <= 131072,
            pow5(lo as int) <= n < pow5(hi as int),
        decreases hi - lo,
    {
        let mid = lo + (hi - lo) / 2;
        proof {
            lemma_pow5_mono(mid as int, 131072);
            let m = mid as int;
            lemma_mul_mono(m, 131072, m, 131072);
            lemma_mul_mono(m * m, 17_179_869_184, m, 131072);
            lemma_mul_mono(m * m * m, 2_251_799_813_685_248, m, 131072);
        }
        let p = mid * mid * mid * mid * mid;
        if p <= n {
            lo = mid;
        } else {
            hi = mid;
        }
    }
    proof {
        lemma_root5_unique(n as int, lo as int);
        lemma_root5_bound(n as int);
    }
    lo
}

/// The sRGB transfer function of one 8-bit channel, in millionths.
pub fn linear_channel(v: u8) -> (r: u64)
    ensures
        r as int == linear_of(v as int),
        r <= 1_000_000,
{
    if v <= 10 {
        return (v as u64) * 100_000_000 / 329_460;
    }
    let k = 1000 * (v as u128) + 14025;
    proof {
        lemma_mul_mono(k as int, 269025, k as int, 269025);
    }
    let a = k * k;
    let den: u128 = 72_374_450_625;
    proof {
        let ai = a as int;
        assert(10_000_000_000_000_000_000_000_000 * ai / 72_374_450_625
            <= 10_000_000_000_000_000_000_000_000) by (nonlinear_arith)
            requires
                0 <= ai <= 72_374_450_625,
        ;
    }
    let x = root5_floor(10_000_000_000_000_000_000_000_000 * a / den);
    proof {
        let (ai, xi) = (a as int, x as int);
        lemma_mul_mono(10 * ai, 723_744_506_250, xi, 100_000);
        assert(10 * ai * xi / 72_374_450_625 <= 1_000_000) by (nonlinear_arith)
            requires
                10 * ai * xi <= 10 * 72_374_450_625 * 100_000,
        ;
    }
    (10 * a * x / den) as u64
}

/// Relative luminance of a color.
pub fn luminance(c: Rgb) -> (l: u64)
    ensures
        l as int == luminance_of(c),
        l <= WHITE_LUMINANCE,
{
    2126 * linear_channel(c.r) + 7152 * linear_channel(c.g) + 722 * linear_channel(c.b)
}

/// Contrast ratio of two luminances, in thousandths.
pub fn contrast(la: u64, lb: u64) -> (r: u64)
    requires
        la <= WHITE_LUMINANCE,
        lb <= WHITE_LUMINANCE,
    ensures
        r as int == contrast_of(la as int, lb as int),
{
    let (bright, dark) = if la >= lb {
        (la, lb)
    } else {
        (lb, la)
    };
    (bright + FLARE) * 1000 / (dark + FLARE)
}

/// Relative luminance of a hex color.
pub fn get_luminance(hexcolor: &str) -> (res: Result<u64, ThemeError>)
    ensures
        res is Ok <==> is_hex_color(hexcolor@),
        res is Ok ==> res->Ok_0 as int == hex_luminance(hexcolor@),
        res is Ok ==> res->Ok_0 <= WHITE_LUMINANCE,
        res is Err ==> res->Err_0 == ThemeError::InvalidHex,
{
    let c = hex_to_rgb(hexcolor)?;
    Ok(luminance(c))
}

/// Contrast ratio of two hex colors, in thousandths.
pub fn get_contrast_ratio(a: &str, b: &str) -> (res: Result<u64, ThemeError>)
    ensures
        res is Ok <==> is_hex_color(a@) && is_hex_color(b@),
        res is Ok ==> res->Ok_0 as int == contrast_of(hex_luminance(a@), hex_luminance(b@)),
        res is Err ==> res->Err_0 == ThemeError::InvalidHex,
{
    let l1 = get_luminance(a)?;
    let l2 = get_luminance(b)?;
    Ok(contrast(l1, l2))
}

/// Whether a hex color's luminance is above one half.
pub fn is_light_color(hexcolor: &str) -> (res: Result<bool, ThemeError>)
    ensures
        res is Ok <==> is_hex_color(hexcolor@),
        res is Ok ==> res->Ok_0 == is_light(rgb_of_hex(hexcolor@)),
        res is Err ==> res->Err_0 == ThemeError::InvalidHex,
{
    let l = get_luminance(hexcolor)?;
    Ok(l > LIGHT_THRESHOLD)
}

/// A legible text color for a background, chosen by its luminance alone.
pub fn on_color(c: Rgb) -> (r: String)
    ensures
        r@ == on_color_of(c),
{
    let l = luminance(c);
    if l > LIGHT_THRESHOLD {
        if contrast(l, 0) >= MIN_TEXT_CONTRAST {
            String::from_str("#000000")
        } else {
            String::from_str("#1c1b1f")
        }
    } else {
        if contrast(l, WHITE_LUMINANCE) >= MIN_TEXT_CONTRAST {
            String::from_str("#ffffff")
        } else {
            String::from_str("#e6e1e5")
        }
    }
}

/// A legible text color for a hex background. The mode hint never
/// overrides the luminance: contrast decides.
pub fn generate_on_color(base: &str, is_dark: bool) -> (res: Result<String, ThemeError>)
    ensures
        res is Ok <==> is_hex_color(base@),
        res is Ok ==> res->Ok_0@ == on_color_of(rgb_of_hex(base@)),
        res is Err ==> res->Err_0 == ThemeError::InvalidHex,
{
    let c = hex_to_rgb(base)?;
    Ok(on_color(c))
}

/// A color has the same contrast with another in both orders, and
/// contrast `1:1` with itself.
pub proof fn lemma_contrast_symmetric(a: Seq<char>, b: Seq<char>)
    requires
        is_hex_color(a),
        is_hex_color(b),
    ensures
        contrast_of(hex_luminance(a), hex_luminance(b)) == contrast_of(
            hex_luminance(b),
            hex_luminance(a),
        ),
        contrast_of(hex_luminance(a), hex_luminance(a)) == 1000,
{
    let la = hex_luminance(a);
    assert(la >= 0) by {
        lemma_linear_nonneg(rgb_of_hex(a));
    }
    assert((la + FLARE) * 1000 / (la + FLARE) == 1000) by (nonlinear_arith)
        requires
            la + FLARE > 0,
    ;
}

proof fn lemma_linear_nonneg(c: Rgb)
    ensures
        luminance_of(c) >= 0,
{
    lemma_linear_bounds(c.r as int);
    lemma_linear_bounds(c.g as int);
    lemma_linear_bounds(c.b as int);
}

proof fn lemma_linear_bounds(v: int)
    requires
        0 <= v <= 255,
    ensures
        0 <= linear_of(v),
{
    if v > 10 {
        let a = gamma_num(v);
        lemma_mul_mono(1000 * v + 14025, 269025, 1000 * v + 14025, 269025);
        assert(0 <= 10_000_000_000_000_000_000_000_000 * a / gamma_den() <= 10_000_000_000_000_000_000_000_000)
            by (nonlinear_arith)
            requires
                0 <= a <= 72_374_450_625,
                gamma_den() == 72_374_450_625,
        ;
        lemma_root5_bound(10_000_000_000_000_000_000_000_000 * a / gamma_den());
        let x = root5(10_000_000_000_000_000_000_000_000 * a / gamma_den());
        assert(0 <= 10 * a * x / gamma_den()) by (nonlinear_arith)
            requires
                0 <= a,
                0 <= x,
                gamma_den() == 72_374_450_625,
        ;
    }
}

proof fn lemma_div_mono(a: int, b: int, d: int)
    requires
        0 <= a <= b,
        d > 0,
    ensures
        a / d <= b / d,
{
    vstd::arithmetic::div_mod::lemma_div_is_ordered(a, b, d);
}

/// `root5` never decreases.
proof fn lemma_root5_mono(n1: int, n2: int)
    requires
        0 <= n1 <= n2 <= 10_000_000_000_000_000_000_000_000,
    ensures
        root5(n1) <= root5(n2),
{
    lemma_root5_bound(n1);
    lemma_root5_bound(n2);
    let (r1, r2) = (root5(n1), root5(n2));
    assert(is_root5(n1, r1) && is_root5(n2, r2)) by {
        let _w1 = root5_search(n1, 0, 131072);
        let _w2 = root5_search(n2, 0, 131072);
        assert(pow5(0) <= n1 < pow5(131072));
        assert(pow5(0) <= n2 < pow5(131072));
    }
    if r1 > r2 {
        lemma_pow5_mono(r2 + 1, r1);
    }
}

/// The transfer function never decreases.
pub proof fn lemma_linear_mono(v1: int, v2: int)
    requires
        0 <= v1 <= v2 <= 255,
    ensures
        linear_of(v1) <= linear_of(v2),
    decreases
            if v1 <= 10 {
                1int
            } else {
                0int
            },
{
    if v2 <= 10 {
        lemma_div_mono(v1 * 100_000_000, v2 * 100_000_000, 329_460);
    } else if v1 <= 10 {
        lemma_div_mono(v1 * 100_000_000, 1_000_000_000int, 329_460);
        assert(pow5(38675) == 86526993109887763671875) by (nonlinear_arith);
        assert(pow5(38676) == 86538180112834805093376) by (nonlinear_arith);
        assert(is_root5(86529240580332211675423, 38675));
        lemma_root5_unique(86529240580332211675423, 38675);
        assert(1000 * 11 + 14025 == 25025);
        assert(25025 * 25025 == 626250625int) by (nonlinear_arith);
        assert(gamma_num(11) == 626250625);
        assert(10_000_000_000_000_000_000_000_000 * 626250625int / 72_374_450_625
            == 86529240580332211675423) by (nonlinear_arith);
        assert(10 * 626250625int * 38675 / 72_374_450_625 == 3346) by (nonlinear_arith);
        assert(linear_of(11) == 3346);
        lemma_linear_mono(11, v2);
    } else {
        let (a1, a2) = (gamma_num(v1), gamma_num(v2));
        lemma_mul_mono(1000 * v1 + 14025, 1000 * v2 + 14025, 1000 * v1 + 14025, 1000 * v2 + 14025);
        lemma_mul_mono(1000 * v2 + 14025, 269025, 1000 * v2 + 14025, 269025);
        let big = 10_000_000_000_000_000_000_000_000int;
        lemma_mul_mono(big, big, a1, a2);
        lemma_div_mono(big * a1, big * a2, gamma_den());
        assert(big * a2 / gamma_den() <= big) by (nonlinear_arith)
            requires
                0 <= a2 <= 72_374_450_625,
                gamma_den() == 72_374_450_625,
                big == 10_000_000_000_000_000_000_000_000,
        ;
        assert(0 <= big * a1 / gamma_den()) by (nonlinear_arith)
            requires
                0 <= a1,
                gamma_den() == 72_374_450_625,
                big == 10_000_000_000_000_000_000_000_000,
        ;
        lemma_root5_mono(big * a1 / gamma_den(), big * a2 / gamma_den());
        lemma_root5_bound(big * a1 / gamma_den());
        let (x1, x2) = (root5(big * a1 / gamma_den()), root5(big * a2 / gamma_den()));
        lemma_mul_mono(10 * a1, 10 * a2, x1, x2);
        lemma_div_mono(10 * a1 * x1, 10 * a2 * x2, gamma_den());
    }
}

/// Luminance never decreases when no channel decreases.
pub proof fn lemma_luminance_mono(c1: Rgb, c2: Rgb)
    requires
        c1.r <= c2.r,
        c1.g <= c2.g,
        c1.b <= c2.b,
    ensures
        luminance_of(c1) <= luminance_of(c2),
{
    lemma_linear_mono(c1.r as int, c2.r as int);
    lemma_linear_mono(c1.g as int, c2.g as int);
    lemma_linear_mono(c1.b as int, c2.b as int);
}

} // verus!
