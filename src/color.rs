//! Hex / RGB codec and the integer clamp used before channel formatting.
use vstd::prelude::*;
use crate::error::ThemeError;
use crate::text::{chars_of, push_char};

verus! {

/// An opaque 8-bit sRGB color.
#[derive(Debug, Clone, Copy, PartialEq, Eq, Structural)]
pub struct Rgb {
    pub r: u8,
    pub g: u8,
    pub b: u8,
}

pub open spec fn is_hex_digit(c: char) -> bool {
    ('0' <= c && c <= '9') || ('a' <= c && c <= 'f') || ('A' <= c && c <= 'F')
}

pub open spec fn hex_value(c: char) -> int {
    if '0' <= c && c <= '9' {
        c as int - '0' as int
    } else if 'a' <= c && c <= 'f' {
        c as int - 'a' as int + 10
    } else {
        c as int - 'A' as int + 10
    }
}

/// `s` without its one optional leading `#`.
pub open spec fn strip_hash(s: Seq<char>) -> Seq<char> {
    if s.len() > 0 && s[0] == '#' {
        s.drop_first()
    } else {
        s
    }
}

/// Exactly six hex digits remain once one optional leading `#` is removed.
pub open spec fn is_hex_color(s: Seq<char>) -> bool {
    let d = strip_hash(s);
    d.len() == 6 && forall|i: int| 0 <= i < 6 ==> is_hex_digit(#[trigger] d[i])
}

pub open spec fn hex_byte(d: Seq<char>, i: int) -> int {
    16 * hex_value(d[i]) + hex_value(d[i + 1])
}

/// The color that a valid hex string denotes.
pub open spec fn rgb_of_hex(s: Seq<char>) -> Rgb {
    let d = strip_hash(s);
    Rgb { r: hex_byte(d, 0) as u8, g: hex_byte(d, 2) as u8, b: hex_byte(d, 4) as u8 }
}

/// The lowercase hex digit of `n` (`0 <= n < 16`).
pub open spec fn lower_hex_digit(n: int) -> char {
    if n < 10 {
        ((n + 48) as u8) as char
    } else {
        ((n + 87) as u8) as char
    }
}

pub open spec fn byte_hex(n: u8) -> Seq<char> {
    seq![lower_hex_digit(n as int / 16), lower_hex_digit(n as int % 16)]
}

/// The canonical `#rrggbb` form of a color, lowercase.
pub open spec fn hex_of_rgb(c: Rgb) -> Seq<char> {
    seq!['#'] + byte_hex(c.r) + byte_hex(c.g) + byte_hex(c.b)
}

/// `lo` raised to `n`, then lowered to `hi`.
pub open spec fn clamp_spec(n: int, lo: int, hi: int) -> int {
    let m = if n < lo { lo } else { n };
    if m > hi { hi } else { m }
}

/// Saturating clamp of `n` into `[minn, maxn]` (`maxn` wins when the bounds cross).
pub fn clamp(n: i64, minn: i64, maxn: i64) -> (r: i64)
    ensures
        r == clamp_spec(n as int, minn as int, maxn as int),
{
    let m = if n < minn { minn } else { n };
    if m > maxn { maxn } else { m }
}

fn hex_digit_value(c: char) -> (r: Option<u8>)
    ensures
        r is Some <==> is_hex_digit(c),
        r is Some ==> r->0 as int == hex_value(c) && r->0 < 16,
{
    if '0' <= c && c <= '9' {
        Some(((c as u32) - ('0' as u32)) as u8)
    } else if 'a' <= c && c <= 'f' {
        Some(((c as u32) - ('a' as u32) + 10) as u8)
    } else if 'A' <= c && c <= 'F' {
        Some(((c as u32) - ('A' as u32) + 10) as u8)
    } else {
        None
    }
}

/// Parses `#rrggbb` or `rrggbb` (one optional leading `#`, hex digits of
/// either case).
pub fn hex_to_rgb(hex_color: &str) -> (res: Result<Rgb, ThemeError>)
    ensures
        res is Ok <==> is_hex_color(hex_color@),
        res is Ok ==> res->Ok_0 == rgb_of_hex(hex_color@),
        res is Err ==> res->Err_0 == ThemeError::InvalidHex,
{
    let v = chars_of(hex_color);
    let n = v.len();
    let i: usize = if n > 0 && v[0] == '#' {
        1
    } else {
        0
    };
    let ghost d = v@.subrange(i as int, n as int);
    assert(strip_hash(v@) =~= d);
    if n - i != 6 {
        return Err(ThemeError::InvalidHex);
    }
    let mut vals: [u8; 6] = [0; 6];
    let mut k: usize = 0;
    while k < 6
        invariant
            k <= 6,
            n - i == 6,
            i <= n,
            n == v@.len(),
            d == v@.subrange(i as int, n as int),
            v@ == hex_color@,
            strip_hash(v@) == d,
            forall|j: int| 0 <= j < k ==> is_hex_digit(#[trigger] d[j]),
            forall|j: int| 0 <= j < k ==> vals[j] as int == hex_value(#[trigger] d[j]),
            forall|j: int| 0 <= j < k ==> vals[j] < 16,
        decreases 6 - k,
    {
        assert(d[k as int] == v@[(i + k) as int]);
        match hex_digit_value(v[i + k]) {
            Some(x) => {
                vals[k] = x;
            },
            None => {
                assert(!is_hex_digit(d[k as int]));
                return Err(ThemeError::InvalidHex);
            },
        }
        k = k + 1;
    }
    let r = vals[0] * 16 + vals[1];
    let g = vals[2] * 16 + vals[3];
    let b = vals[4] * 16 + vals[5];
    Ok(Rgb { r, g, b })
}

fn hex_digit_char(n: u8) -> (c: char)
    requires
        n < 16,
    ensures
        c == lower_hex_digit(n as int),
{
    if n < 10 {
        (n + 48) as char
    } else {
        (n + 87) as char
    }
}

pub(crate) fn push_byte_hex(s: &mut String, n: u8)
    ensures
        final(s)@ == old(s)@ + byte_hex(n),
{
    push_char(s, hex_digit_char(n / 16));
    push_char(s, hex_digit_char(n % 16));
    assert(final(s)@ =~= old(s)@ + byte_hex(n));
}

/// The `#rrggbb` form of a color, lowercase.
pub fn rgb_hex(c: Rgb) -> (r: String)
    ensures
        r@ == hex_of_rgb(c),
{
    let mut s = String::new();
    push_char(&mut s, '#');
    push_byte_hex(&mut s, c.r);
    push_byte_hex(&mut s, c.g);
    push_byte_hex(&mut s, c.b);
    assert(s@ =~= hex_of_rgb(c));
    s
}

/// Each channel is clamped into `[0, 255]`, then the color is written as
/// lowercase `#rrggbb`.
pub fn rgb_to_hex(r: i64, g: i64, b: i64) -> (s: String)
    ensures
        s@ == hex_of_rgb(
            Rgb {
                r: clamp_spec(r as int, 0, 255) as u8,
                g: clamp_spec(g as int, 0, 255) as u8,
                b: clamp_spec(b as int, 0, 255) as u8,
            },
        ),
{
    let c = Rgb { r: clamp(r, 0, 255) as u8, g: clamp(g, 0, 255) as u8, b: clamp(b, 0, 255) as u8 };
    rgb_hex(c)
}

/// `#` followed by six lowercase hex digits: the form that `rgb_hex` writes.
pub open spec fn is_canonical_hex(s: Seq<char>) -> bool {
    s.len() == 7 && s[0] == '#' && forall|i: int|
        1 <= i < 7 ==> ('0' <= #[trigger] s[i] && s[i] <= '9') || ('a' <= s[i] && s[i] <= 'f')
}

proof fn lemma_digit_round_trip(c: char)
    requires
        ('0' <= c && c <= '9') || ('a' <= c && c <= 'f'),
    ensures
        lower_hex_digit(hex_value(c)) == c,
        0 <= hex_value(c) < 16,
{
}

proof fn lemma_byte_split(hi: int, lo: int)
    requires
        0 <= hi < 16,
        0 <= lo < 16,
    ensures
        (16 * hi + lo) / 16 == hi,
        (16 * hi + lo) % 16 == lo,
        0 <= 16 * hi + lo < 256,
{
}

/// Writing the color of a canonical hex string gives back that string.
pub proof fn lemma_hex_round_trip(h: Seq<char>)
    requires
        is_canonical_hex(h),
    ensures
        is_hex_color(h),
        hex_of_rgb(rgb_of_hex(h)) == h,
{
    let d = h.drop_first();
    assert(strip_hash(h) == d);
    assert forall|i: int| 0 <= i < 6 implies is_hex_digit(#[trigger] d[i]) by {
        assert(d[i] == h[i + 1]);
    }
    assert forall|j: int| 0 <= j < 6 implies lower_hex_digit(hex_value(#[trigger] d[j])) == d[j]
        && 0 <= hex_value(d[j]) < 16 by {
        assert(d[j] == h[j + 1]);
        lemma_digit_round_trip(d[j]);
    }
    let c = rgb_of_hex(h);
    lemma_byte_split(hex_value(d[0]), hex_value(d[1]));
    lemma_byte_split(hex_value(d[2]), hex_value(d[3]));
    lemma_byte_split(hex_value(d[4]), hex_value(d[5]));
    assert(hex_of_rgb(c) =~= h);
}

/// Reading back the hex form of a color gives the same color.
pub proof fn lemma_rgb_round_trip(c: Rgb)
    ensures
        is_hex_color(hex_of_rgb(c)),
        rgb_of_hex(hex_of_rgb(c)) == c,
{
    let h = hex_of_rgb(c);
    assert(is_canonical_hex(h)) by {
        assert forall|i: int| 1 <= i < 7 implies ('0' <= #[trigger] h[i] && h[i] <= '9') || (
        'a' <= h[i] && h[i] <= 'f') by {
            let n: int = if i == 1 {
                c.r as int / 16
            } else if i == 2 {
                c.r as int % 16
            } else if i == 3 {
                c.g as int / 16
            } else if i == 4 {
                c.g as int % 16
            } else if i == 5 {
                c.b as int / 16
            } else {
                c.b as int % 16
            };
            assert(h[i] == lower_hex_digit(n));
        }
    }
    lemma_hex_round_trip(h);
    let d = h.drop_first();
    assert(strip_hash(h) == d);
    assert(hex_value(d[0]) == c.r as int / 16);
    assert(hex_value(d[1]) == c.r as int % 16);
    assert(hex_value(d[2]) == c.g as int / 16);
    assert(hex_value(d[3]) == c.g as int % 16);
    assert(hex_value(d[4]) == c.b as int / 16);
    assert(hex_value(d[5]) == c.b as int % 16);
}

} // verus!
