//! Every textual and numeric form of a color that a template can ask for.
use vstd::prelude::*;
use crate::color::{Rgb, hex_of_rgb, hex_to_rgb, is_hex_color, rgb_hex, rgb_of_hex};
use crate::error::ThemeError;
use crate::hsl::{Hsl, hsl_of, rgb_to_hsl};
use crate::text::push_char;

verus! {

pub open spec fn digit_char(d: int) -> char {
    ((d + 48) as u8) as char
}

/// The decimal digits of `n`, without leading zeros.
pub open spec fn decimal(n: nat) -> Seq<char>
    decreases n,
{
    if n < 10 {
        seq![digit_char(n as int)]
    } else {
        decimal(n / 10).push(digit_char((n % 10) as int))
    }
}

/// Appends the decimal digits of `n`.
pub fn push_decimal(s: &mut String, n: u32)
    ensures
        final(s)@ == old(s)@ + decimal(n as nat),
    decreases n,
{
    if n >= 10 {
        push_decimal(s, n / 10);
    }
    push_char(s, ((n % 10) as u8 + 48) as char);
    assert(final(s)@ =~= old(s)@ + decimal(n as nat));
}

/// The decimal form of `n`.
pub fn decimal_string(n: u32) -> (s: String)
    ensures
        s@ == decimal(n as nat),
{
    let mut s = String::new();
    push_decimal(&mut s, n);
    assert(s@ =~= decimal(n as nat));
    s
}

/// A value in hundredths, rounded to the nearest whole.
pub open spec fn rounded(x: int) -> int {
    (x + 50) / 100
}

pub open spec fn whole_percent(x: int) -> int {
    if x / 100 > 100 {
        100
    } else {
        x / 100
    }
}

pub open spec fn rgb_text(c: Rgb) -> Seq<char> {
    "rgb("@ + decimal(c.r as nat) + ", "@ + decimal(c.g as nat) + ", "@ + decimal(c.b as nat) + ")"@
}

pub open spec fn rgba_text(c: Rgb) -> Seq<char> {
    "rgba("@ + decimal(c.r as nat) + ", "@ + decimal(c.g as nat) + ", "@ + decimal(c.b as nat)
        + ", 255)"@
}

/// The whole parts of hue (within one turn), saturation and lightness,
/// each as `"h, s%, l%"`.
pub open spec fn hsl_body(x: Hsl) -> Seq<char> {
    decimal(((x.h / 100) % 360) as nat) + ", "@ + decimal(whole_percent(x.s as int) as nat) + "%, "@
        + decimal(whole_percent(x.l as int) as nat) + "%"@
}

pub open spec fn hsl_text(x: Hsl) -> Seq<char> {
    "hsl("@ + hsl_body(x) + ")"@
}

pub open spec fn hsla_text(x: Hsl) -> Seq<char> {
    "hsla("@ + hsl_body(x) + ", 1.0)"@
}

/// One color in each form a template can ask for. Alpha is always 255.
/// Hue, saturation and lightness are in hundredths.
#[derive(Debug, Clone)]
pub struct ColorFormat {
    pub hex: String,
    pub hex_stripped: String,
    pub rgb: String,
    pub rgba: String,
    pub hsl: String,
    pub hsla: String,
    pub red: u8,
    pub green: u8,
    pub blue: u8,
    pub alpha: u8,
    pub hue: u32,
    pub saturation: u32,
    pub lightness: u32,
}

impl ColorFormat {
    /// Every field is the matching form of `c`.
    #[verifier::opaque]
    pub open spec fn is_format_of(&self, c: Rgb) -> bool {
        let x = hsl_of(c);
        &&& self.hex@ == hex_of_rgb(c)
        &&& self.hex_stripped@ == hex_of_rgb(c).drop_first()
        &&& self.rgb@ == rgb_text(c)
        &&& self.rgba@ == rgba_text(c)
        &&& self.hsl@ == hsl_text(x)
        &&& self.hsla@ == hsla_text(x)
        &&& self.red == c.r
        &&& self.green == c.g
        &&& self.blue == c.b
        &&& self.alpha == 255
        &&& self.hue == x.h
        &&& self.saturation == x.s
        &&& self.lightness == x.l
    }
}

fn push_hsl_body(s: &mut String, x: Hsl)
    requires
        x.wf(),
    ensures
        final(s)@ == old(s)@ + hsl_body(x),
{
    push_decimal(s, (x.h / 100) % 360);
    s.append(", ");
    push_decimal(s, if x.s / 100 > 100 { 100 } else { x.s / 100 });
    s.append("%, ");
    push_decimal(s, if x.l / 100 > 100 { 100 } else { x.l / 100 });
    s.append("%");
    assert(final(s)@ =~= old(s)@ + hsl_body(x));
}

/// Every form of a color.
pub fn format_rgb(c: Rgb) -> (f: ColorFormat)
    ensures
        f.is_format_of(c),
{
    reveal(ColorFormat::is_format_of);
    let x = rgb_to_hsl(c.r, c.g, c.b);
    let hex = rgb_hex(c);
    let ghost h = hex_of_rgb(c);
    let mut hex_stripped = String::new();
    crate::color::push_byte_hex(&mut hex_stripped, c.r);
    crate::color::push_byte_hex(&mut hex_stripped, c.g);
    crate::color::push_byte_hex(&mut hex_stripped, c.b);
    assert(hex_stripped@ =~= h.drop_first());
    let mut rgb = String::from_str("rgb(");
    push_decimal(&mut rgb, c.r as u32);
    rgb.append(", ");
    push_decimal(&mut rgb, c.g as u32);
    rgb.append(", ");
    push_decimal(&mut rgb, c.b as u32);
    rgb.append(")");
    assert(rgb@ =~= rgb_text(c));
    let mut rgba = String::from_str("rgba(");
    push_decimal(&mut rgba, c.r as u32);
    rgba.append(", ");
    push_decimal(&mut rgba, c.g as u32);
    rgba.append(", ");
    push_decimal(&mut rgba, c.b as u32);
    rgba.append(", 255)");
    assert(rgba@ =~= rgba_text(c));
    let mut hsl = String::from_str("hsl(");
    push_hsl_body(&mut hsl, x);
    hsl.append(")");
    assert(hsl@ =~= hsl_text(x));
    let mut hsla = String::from_str("hsla(");
    push_hsl_body(&mut hsla, x);
    hsla.append(", 1.0)");
    assert(hsla@ =~= hsla_text(x));
    ColorFormat {
        hex,
        hex_stripped,
        rgb,
        rgba,
        hsl,
        hsla,
        red: c.r,
        green: c.g,
        blue: c.b,
        alpha: 255,
        hue: x.h,
        saturation: x.s,
        lightness: x.l,
    }
}

/// Every form of a hex color; the hex forms are written lowercase.
pub fn create_color_format(hex: &str) -> (res: Result<ColorFormat, ThemeError>)
    ensures
        res is Ok <==> is_hex_color(hex@),
        res is Ok ==> res->Ok_0.is_format_of(rgb_of_hex(hex@)),
        res is Err ==> res->Err_0 == ThemeError::InvalidHex,
{
    let c = hex_to_rgb(hex)?;
    Ok(format_rgb(c))
}

} // verus!
