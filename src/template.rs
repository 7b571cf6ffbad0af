//! The template engine: `{{mode}}`, `{{is_dark}}`, `{{is_light}}` and
//! `{{colors.<role>.default.<property>}}` placeholders (white space allowed
//! inside the braces and around each dot), resolved against a
//! palette. Substitution never fails: an unknown role gives a neutral value.
use vstd::prelude::*;
use crate::format::{ColorFormat, decimal, decimal_string, rounded};
use crate::palette::{Palette, Role, role_entry};
use crate::text::{chars_of, string_of};

verus! {

/// A form of a color that a placeholder can ask for.
#[derive(Debug, Clone, Copy, PartialEq, Eq, Structural)]
pub enum Property {
    Hex,
    HexStripped,
    Rgb,
    Rgba,
    Hsl,
    Hsla,
    Red,
    Green,
    Blue,
    Alpha,
    Hue,
    Saturation,
    Lightness,
}

/// The name of a property in a placeholder.
pub open spec fn property_name(p: Property) -> Seq<char> {
    match p {
        Property::Hex => "hex"@,
        Property::HexStripped => "hex_stripped"@,
        Property::Rgb => "rgb"@,
        Property::Rgba => "rgba"@,
        Property::Hsl => "hsl"@,
        Property::Hsla => "hsla"@,
        Property::Red => "red"@,
        Property::Green => "green"@,
        Property::Blue => "blue"@,
        Property::Alpha => "alpha"@,
        Property::Hue => "hue"@,
        Property::Saturation => "saturation"@,
        Property::Lightness => "lightness"@,
    }
}

/// The name of a property in a placeholder.
pub fn property_str(p: Property) -> (r: &'static str)
    ensures
        r@ == property_name(p),
{
    match p {
        Property::Hex => "hex",
        Property::HexStripped => "hex_stripped",
        Property::Rgb => "rgb",
        Property::Rgba => "rgba",
        Property::Hsl => "hsl",
        Property::Hsla => "hsla",
        Property::Red => "red",
        Property::Green => "green",
        Property::Blue => "blue",
        Property::Alpha => "alpha",
        Property::Hue => "hue",
        Property::Saturation => "saturation",
        Property::Lightness => "lightness",
    }
}

/// The properties in the order their passes run.
pub open spec fn property_at(i: int) -> Property {
    if i <= 0 {
        Property::Hex
    } else if i == 1 {
        Property::HexStripped
    } else if i == 2 {
        Property::Rgb
    } else if i == 3 {
        Property::Rgba
    } else if i == 4 {
        Property::Hsl
    } else if i == 5 {
        Property::Hsla
    } else if i == 6 {
        Property::Red
    } else if i == 7 {
        Property::Green
    } else if i == 8 {
        Property::Blue
    } else if i == 9 {
        Property::Alpha
    } else if i == 10 {
        Property::Hue
    } else if i == 11 {
        Property::Saturation
    } else {
        Property::Lightness
    }
}

fn property_of_pass(i: usize) -> (p: Property)
    requires
        i < 13,
    ensures
        p == property_at(i as int),
{
    if i == 0 {
        Property::Hex
    } else if i == 1 {
        Property::HexStripped
    } else if i == 2 {
        Property::Rgb
    } else if i == 3 {
        Property::Rgba
    } else if i == 4 {
        Property::Hsl
    } else if i == 5 {
        Property::Hsla
    } else if i == 6 {
        Property::Red
    } else if i == 7 {
        Property::Green
    } else if i == 8 {
        Property::Blue
    } else if i == 9 {
        Property::Alpha
    } else if i == 10 {
        Property::Hue
    } else if i == 11 {
        Property::Saturation
    } else {
        Property::Lightness
    }
}

/// The role a template may address by `name`; not every role can be.
pub open spec fn role_of_name(name: Seq<char>) -> Option<Role> {
    if name == "primary"@ {
        Some(Role::Primary)
    } else if name == "on_primary"@ {
        Some(Role::OnPrimary)
    } else if name == "primary_container"@ {
        Some(Role::PrimaryContainer)
    } else if name == "on_primary_container"@ {
        Some(Role::OnPrimaryContainer)
    } else if name == "secondary"@ {
        Some(Role::Secondary)
    } else if name == "on_secondary"@ {
        Some(Role::OnSecondary)
    } else if name == "secondary_container"@ {
        Some(Role::SecondaryContainer)
    } else if name == "on_secondary_container"@ {
        Some(Role::OnSecondaryContainer)
    } else if name == "tertiary"@ {
        Some(Role::Tertiary)
    } else if name == "on_tertiary"@ {
        Some(Role::OnTertiary)
    } else if name == "tertiary_container"@ {
        Some(Role::TertiaryContainer)
    } else if name == "on_tertiary_container"@ {
        Some(Role::OnTertiaryContainer)
    } else if name == "error"@ {
        Some(Role::Error)
    } else if name == "on_error"@ {
        Some(Role::OnError)
    } else if name == "error_container"@ {
        Some(Role::ErrorContainer)
    } else if name == "on_error_container"@ {
        Some(Role::OnErrorContainer)
    } else if name == "background"@ {
        Some(Role::Background)
    } else if name == "on_background"@ {
        Some(Role::OnBackground)
    } else if name == "surface"@ {
        Some(Role::Surface)
    } else if name == "on_surface"@ {
        Some(Role::OnSurface)
    } else if name == "surface_variant"@ {
        Some(Role::SurfaceVariant)
    } else if name == "on_surface_variant"@ {
        Some(Role::OnSurfaceVariant)
    } else if name == "surface_container_lowest"@ {
        Some(Role::SurfaceContainerLowest)
    } else if name == "surface_container_low"@ {
        Some(Role::SurfaceContainerLow)
    } else if name == "surface_container"@ {
        Some(Role::SurfaceContainer)
    } else if name == "surface_container_high"@ {
        Some(Role::SurfaceContainerHigh)
    } else if name == "surface_container_highest"@ {
        Some(Role::SurfaceContainerHighest)
    } else if name == "outline"@ {
        Some(Role::Outline)
    } else if name == "outline_variant"@ {
        Some(Role::OutlineVariant)
    } else if name == "shadow"@ {
        Some(Role::Shadow)
    } else {
        None
    }
}

/// The role a template may address by `name`.
pub fn role_by_name(name: &String) -> (r: Option<Role>)
    ensures
        r == role_of_name(name@),
{
    if *name == String::from_str("primary") {
        Some(Role::Primary)
    } else if *name == String::from_str("on_primary") {
        Some(Role::OnPrimary)
    } else if *name == String::from_str("primary_container") {
        Some(Role::PrimaryContainer)
    } else if *name == String::from_str("on_primary_container") {
        Some(Role::OnPrimaryContainer)
    } else if *name == String::from_str("secondary") {
        Some(Role::Secondary)
    } else if *name == String::from_str("on_secondary") {
        Some(Role::OnSecondary)
    } else if *name == String::from_str("secondary_container") {
        Some(Role::SecondaryContainer)
    } else if *name == String::from_str("on_secondary_container") {
        Some(Role::OnSecondaryContainer)
    } else if *name == String::from_str("tertiary") {
        Some(Role::Tertiary)
    } else if *name == String::from_str("on_tertiary") {
        Some(Role::OnTertiary)
    } else if *name == String::from_str("tertiary_container") {
        Some(Role::TertiaryContainer)
    } else if *name == String::from_str("on_tertiary_container") {
        Some(Role::OnTertiaryContainer)
    } else if *name == String::from_str("error") {
        Some(Role::Error)
    } else if *name == String::from_str("on_error") {
        Some(Role::OnError)
    } else if *name == String::from_str("error_container") {
        Some(Role::ErrorContainer)
    } else if *name == String::from_str("on_error_container") {
        Some(Role::OnErrorContainer)
    } else if *name == String::from_str("background") {
        Some(Role::Background)
    } else if *name == String::from_str("on_background") {
        Some(Role::OnBackground)
    } else if *name == String::from_str("surface") {
        Some(Role::Surface)
    } else if *name == String::from_str("on_surface") {
        Some(Role::OnSurface)
    } else if *name == String::from_str("surface_variant") {
        Some(Role::SurfaceVariant)
    } else if *name == String::from_str("on_surface_variant") {
        Some(Role::OnSurfaceVariant)
    } else if *name == String::from_str("surface_container_lowest") {
        Some(Role::SurfaceContainerLowest)
    } else if *name == String::from_str("surface_container_low") {
        Some(Role::SurfaceContainerLow)
    } else if *name == String::from_str("surface_container") {
        Some(Role::SurfaceContainer)
    } else if *name == String::from_str("surface_container_high") {
        Some(Role::SurfaceContainerHigh)
    } else if *name == String::from_str("surface_container_highest") {
        Some(Role::SurfaceContainerHighest)
    } else if *name == String::from_str("outline") {
        Some(Role::Outline)
    } else if *name == String::from_str("outline_variant") {
        Some(Role::OutlineVariant)
    } else if *name == String::from_str("shadow") {
        Some(Role::Shadow)
    } else {
        None
    }
}

/// What a property of a color format reads as. Hue, saturation and
/// lightness are rounded to whole numbers.
pub open spec fn format_text(f: ColorFormat, p: Property) -> Seq<char> {
    match p {
        Property::Hex => f.hex@,
        Property::HexStripped => f.hex_stripped@,
        Property::Rgb => f.rgb@,
        Property::Rgba => f.rgba@,
        Property::Hsl => f.hsl@,
        Property::Hsla => f.hsla@,
        Property::Red => decimal(f.red as nat),
        Property::Green => decimal(f.green as nat),
        Property::Blue => decimal(f.blue as nat),
        Property::Alpha => decimal(f.alpha as nat),
        Property::Hue => decimal(rounded(f.hue as int) as nat),
        Property::Saturation => decimal(rounded(f.saturation as int) as nat),
        Property::Lightness => decimal(rounded(f.lightness as int) as nat),
    }
}

/// What a property reads as for a role that is not addressable.
pub open spec fn neutral_text(p: Property) -> Seq<char> {
    match p {
        Property::Hex => "#000000"@,
        Property::HexStripped => "000000"@,
        Property::Rgb => "rgb(0, 0, 0)"@,
        Property::Rgba => "rgba(0, 0, 0, 0)"@,
        Property::Hsl => "hsl(0, 0%, 0%)"@,
        Property::Hsla => "hsla(0, 0%, 0%, 1.0)"@,
        Property::Red => "0"@,
        Property::Green => "0"@,
        Property::Blue => "0"@,
        Property::Alpha => "0"@,
        Property::Hue => "0"@,
        Property::Saturation => "0"@,
        Property::Lightness => "0"@,
    }
}

/// What a placeholder of `role` and property `p` is replaced by.
pub open spec fn placeholder_value(pal: &Palette, role: Seq<char>, p: Property) -> Seq<char> {
    match role_of_name(role) {
        Some(r) => format_text(role_entry(pal, r), p),
        None => neutral_text(p),
    }
}

fn rounded_whole(x: u32) -> (r: u32)
    ensures
        r as int == rounded(x as int),
{
    x / 100 + if x % 100 >= 50 {
        1
    } else {
        0
    }
}

fn format_string(f: &ColorFormat, p: Property) -> (r: String)
    ensures
        r@ == format_text(*f, p),
{
    match p {
        Property::Hex => f.hex.clone(),
        Property::HexStripped => f.hex_stripped.clone(),
        Property::Rgb => f.rgb.clone(),
        Property::Rgba => f.rgba.clone(),
        Property::Hsl => f.hsl.clone(),
        Property::Hsla => f.hsla.clone(),
        Property::Red => decimal_string(f.red as u32),
        Property::Green => decimal_string(f.green as u32),
        Property::Blue => decimal_string(f.blue as u32),
        Property::Alpha => decimal_string(f.alpha as u32),
        Property::Hue => decimal_string(rounded_whole(f.hue)),
        Property::Saturation => decimal_string(rounded_whole(f.saturation)),
        Property::Lightness => decimal_string(rounded_whole(f.lightness)),
    }
}

fn neutral_string(p: Property) -> (r: String)
    ensures
        r@ == neutral_text(p),
{
    match p {
        Property::Hex => String::from_str("#000000"),
        Property::HexStripped => String::from_str("000000"),
        Property::Rgb => String::from_str("rgb(0, 0, 0)"),
        Property::Rgba => String::from_str("rgba(0, 0, 0, 0)"),
        Property::Hsl => String::from_str("hsl(0, 0%, 0%)"),
        Property::Hsla => String::from_str("hsla(0, 0%, 0%, 1.0)"),
        Property::Red => String::from_str("0"),
        Property::Green => String::from_str("0"),
        Property::Blue => String::from_str("0"),
        Property::Alpha => String::from_str("0"),
        Property::Hue => String::from_str("0"),
        Property::Saturation => String::from_str("0"),
        Property::Lightness => String::from_str("0"),
    }
}

fn placeholder_string(pal: &Palette, role: &String, p: Property) -> (r: String)
    ensures
        r@ == placeholder_value(pal, role@, p),
{
    match role_by_name(role) {
        Some(r) => format_string(&pal.entry(r).default, p),
        None => neutral_string(p),
    }
}

/// Unicode white space, as `\s` matches it.
pub open spec fn is_space(c: char) -> bool {
    ('\u{9}' <= c && c <= '\u{d}') || c == ' ' || c == '\u{85}' || c == '\u{a0}' || c
        == '\u{1680}' || ('\u{2000}' <= c && c <= '\u{200a}') || c == '\u{2028}' || c
        == '\u{2029}' || c == '\u{202f}' || c == '\u{205f}' || c == '\u{3000}'
}

/// A character of a role name: ASCII letter, digit or underscore.
pub open spec fn is_name_char(c: char) -> bool {
    ('a' <= c && c <= 'z') || ('A' <= c && c <= 'Z') || ('0' <= c && c <= '9') || c == '_'
}

/// `lit` stands in `s` at `i`.
pub open spec fn has_at(s: Seq<char>, i: int, lit: Seq<char>) -> bool {
    0 <= i && i + lit.len() <= s.len() && s.subrange(i, i + lit.len()) == lit
}

/// The first position from `i` on that is not white space.
pub open spec fn skip_spaces(s: Seq<char>, i: int) -> int
    decreases s.len() - i,
{
    if 0 <= i < s.len() && is_space(s[i]) {
        skip_spaces(s, i + 1)
    } else {
        i
    }
}

/// The first position from `i` on that is not a role-name character.
pub open spec fn name_end(s: Seq<char>, i: int) -> int
    decreases s.len() - i,
{
    if 0 <= i < s.len() && is_name_char(s[i]) {
        name_end(s, i + 1)
    } else {
        i
    }
}

/// A placeholder `{{ colors . <role> . default . <p> }}` starts at `i`:
/// where it ends, and its role name. White space may stand inside the
/// braces and around each dot.
pub open spec fn placeholder_at(s: Seq<char>, i: int, p: Property) -> Option<(int, Seq<char>)> {
    let a = skip_spaces(s, i + "{{"@.len());
    let b = skip_spaces(s, a + "colors"@.len());
    let k = skip_spaces(s, b + "."@.len());
    let e = name_end(s, k);
    let d = skip_spaces(s, e);
    let f = skip_spaces(s, d + "."@.len());
    let g = skip_spaces(s, f + "default"@.len());
    let q = skip_spaces(s, g + "."@.len());
    let z = skip_spaces(s, q + property_name(p).len());
    if has_at(s, i, "{{"@) && has_at(s, a, "colors"@) && has_at(s, b, "."@) && e > k && has_at(
        s,
        d,
        "."@,
    ) && has_at(s, f, "default"@) && has_at(s, g, "."@) && has_at(s, q, property_name(p))
        && has_at(s, z, "}}"@) {
        Some((z + "}}"@.len(), s.subrange(k, e)))
    } else {
        None
    }
}

/// One pass: every placeholder of property `p` from `i` on, left to right,
/// replaced by its value.
pub open spec fn substitute(s: Seq<char>, i: int, p: Property, pal: &Palette) -> Seq<char>
    decreases s.len() - i,
{
    if i < 0 || i >= s.len() {
        Seq::empty()
    } else {
        match placeholder_at(s, i, p) {
            Some((e, role)) => if e > i {
                placeholder_value(pal, role, p) + substitute(s, e, p, pal)
            } else {
                Seq::empty()
            },
            None => seq![s[i]] + substitute(s, i + 1, p, pal),
        }
    }
}

/// Every occurrence of `pat` from `i` on, left to right, replaced by `rep`.
pub open spec fn replace_from(s: Seq<char>, i: int, pat: Seq<char>, rep: Seq<char>) -> Seq<char>
    decreases s.len() - i,
{
    if i < 0 || i >= s.len() {
        Seq::empty()
    } else if pat.len() > 0 && has_at(s, i, pat) {
        rep + replace_from(s, i + pat.len(), pat, rep)
    } else {
        seq![s[i]] + replace_from(s, i + 1, pat, rep)
    }
}

/// The passes of the first `n` properties, in order.
pub open spec fn color_passes(s: Seq<char>, pal: &Palette, n: int) -> Seq<char>
    decreases n,
{
    if n <= 0 {
        s
    } else {
        substitute(color_passes(s, pal, n - 1), 0, property_at(n - 1), pal)
    }
}

pub open spec fn flag_text(b: bool) -> Seq<char> {
    if b {
        "true"@
    } else {
        "false"@
    }
}

/// The mode placeholders replaced, in order `{{mode}}`, `{{is_dark}}`,
/// `{{is_light}}`.
pub open spec fn mode_passes(s: Seq<char>, mode: Seq<char>) -> Seq<char> {
    let a = replace_from(s, 0, "{{mode}}"@, mode);
    let b = replace_from(a, 0, "{{is_dark}}"@, flag_text(mode == "dark"@));
    replace_from(b, 0, "{{is_light}}"@, flag_text(mode == "light"@))
}

/// A template with every placeholder resolved.
pub open spec fn rendered(template: Seq<char>, pal: &Palette, mode: Seq<char>) -> Seq<char> {
    color_passes(mode_passes(template, mode), pal, 13)
}

fn has_at_exec(s: &Vec<char>, i: usize, lit: &Vec<char>) -> (r: bool)
    ensures
        r == has_at(s@, i as int, lit@),
{
    let n = s.len();
    if i > n || lit.len() > n - i {
        return false;
    }
    let mut k: usize = 0;
    while k < lit.len()
        invariant
            n == s@.len(),
            i + lit@.len() <= s@.len(),
            k <= lit@.len(),
            forall|j: int| 0 <= j < k ==> s@[i + j] == lit@[j],
        decreases lit@.len() - k,
    {
        if s[i + k] != lit[k] {
            assert(s@.subrange(i as int, i + lit@.len())[k as int] != lit@[k as int]);
            return false;
        }
        k = k + 1;
    }
    assert(s@.subrange(i as int, i + lit@.len()) =~= lit@);
    true
}

fn is_space_exec(c: char) -> (r: bool)
    ensures
        r == is_space(c),
{
    ('\u{9}' <= c && c <= '\u{d}') || c == ' ' || c == '\u{85}' || c == '\u{a0}' || c
        == '\u{1680}' || ('\u{2000}' <= c && c <= '\u{200a}') || c == '\u{2028}' || c
        == '\u{2029}' || c == '\u{202f}' || c == '\u{205f}' || c == '\u{3000}'
}

fn skip_spaces_exec(s: &Vec<char>, i: usize) -> (r: usize)
    requires
        i <= s@.len(),
    ensures
        r as int == skip_spaces(s@, i as int),
        i <= r <= s@.len(),
{
    let mut j = i;
    while j < s.len() && is_space_exec(s[j])
        invariant
            i <= j <= s@.len(),
            skip_spaces(s@, i as int) == skip_spaces(s@, j as int),
        decreases s@.len() - j,
    {
        j = j + 1;
    }
    j
}

fn is_name_char_exec(c: char) -> (r: bool)
    ensures
        r == is_name_char(c),
{
    ('a' <= c && c <= 'z') || ('A' <= c && c <= 'Z') || ('0' <= c && c <= '9') || c == '_'
}

fn name_end_exec(s: &Vec<char>, i: usize) -> (r: usize)
    requires
        i <= s@.len(),
    ensures
        r as int == name_end(s@, i as int),
        i <= r <= s@.len(),
{
    let mut j = i;
    while j < s.len() && is_name_char_exec(s[j])
        invariant
            i <= j <= s@.len(),
            name_end(s@, i as int) == name_end(s@, j as int),
        decreases s@.len() - j,
    {
        j = j + 1;
    }
    j
}

/// The literals of the placeholder syntax, as characters.
struct Syntax {
    open: Vec<char>,
    colors: Vec<char>,
    dot: Vec<char>,
    default: Vec<char>,
    close: Vec<char>,
}

impl Syntax {
    spec fn ok(&self) -> bool {
        &&& self.open@ == "{{"@
        &&& self.colors@ == "colors"@
        &&& self.dot@ == "."@
        &&& self.default@ == "default"@
        &&& self.close@ == "}}"@
        &&& self.open@.len() == 2
        &&& self.close@.len() == 2
        &&& self.dot@.len() == 1
    }

    fn new() -> (r: Syntax)
        ensures
            r.ok(),
    {
        proof {
            reveal_strlit("{{");
            reveal_strlit("}}");
            reveal_strlit(".");
        }
        Syntax {
            open: chars_of("{{"),
            colors: chars_of("colors"),
            dot: chars_of("."),
            default: chars_of("default"),
            close: chars_of("}}"),
        }
    }
}

/// Where a placeholder ends, and where its role name stands.
struct Found {
    end: usize,
    role_start: usize,
    role_end: usize,
}

fn placeholder_exec(syn: &Syntax, s: &Vec<char>, i: usize, name: &Vec<char>, Ghost(p): Ghost<
    Property,
>) -> (r: Option<Found>)
    requires
        syn.ok(),
        name@ == property_name(p),
        i < s@.len(),
    ensures
        match placeholder_at(s@, i as int, p) {
            Some((e, role)) => match r {
                Some(f) => f.end == e && f.role_start <= f.role_end <= s@.len() && role
                    == s@.subrange(f.role_start as int, f.role_end as int) && e > i,
                None => false,
            },
            None => r is None,
        },
{
    if !has_at_exec(s, i, &syn.open) {
        return None;
    }
    let n = s.len();
    let a = skip_spaces_exec(s, i + 2);
    if !has_at_exec(s, a, &syn.colors) {
        return None;
    }
    let b = skip_spaces_exec(s, a + syn.colors.len());
    if !has_at_exec(s, b, &syn.dot) {
        return None;
    }
    let k = skip_spaces_exec(s, b + 1);
    let e = name_end_exec(s, k);
    if e == k {
        return None;
    }
    let d = skip_spaces_exec(s, e);
    if !has_at_exec(s, d, &syn.dot) {
        return None;
    }
    let f = skip_spaces_exec(s, d + 1);
    if !has_at_exec(s, f, &syn.default) {
        return None;
    }
    let g = skip_spaces_exec(s, f + syn.default.len());
    if !has_at_exec(s, g, &syn.dot) {
        return None;
    }
    let q = skip_spaces_exec(s, g + 1);
    if !has_at_exec(s, q, name) {
        return None;
    }
    let z = skip_spaces_exec(s, q + name.len());
    if !has_at_exec(s, z, &syn.close) {
        return None;
    }
    Some(Found { end: z + 2, role_start: k, role_end: e })
}

fn append_chars(out: &mut Vec<char>, t: &Vec<char>)
    ensures
        final(out)@ == old(out)@ + t@,
{
    let mut k: usize = 0;
    while k < t.len()
        invariant
            k <= t@.len(),
            out@ == old(out)@ + t@.subrange(0, k as int),
        decreases t@.len() - k,
    {
        out.push(t[k]);
        k = k + 1;
        assert(out@ =~= old(out)@ + t@.subrange(0, k as int));
    }
    assert(t@.subrange(0, t@.len() as int) =~= t@);
}

fn slice_string(s: &Vec<char>, a: usize, b: usize) -> (r: String)
    requires
        a <= b <= s@.len(),
    ensures
        r@ == s@.subrange(a as int, b as int),
{
    let mut v: Vec<char> = Vec::new();
    let mut k = a;
    while k < b
        invariant
            a <= k <= b,
            b <= s@.len(),
            v@ == s@.subrange(a as int, k as int),
        decreases b - k,
    {
        v.push(s[k]);
        k = k + 1;
        assert(v@ =~= s@.subrange(a as int, k as int));
    }
    string_of(&v)
}

/// One pass of property `p` over `s`.
fn substitute_pass(syn: &Syntax, s: &Vec<char>, p: Property, pal: &Palette) -> (r: Vec<char>)
    requires
        syn.ok(),
    ensures
        r@ == substitute(s@, 0, p, pal),
{
    let name = chars_of(property_str(p));
    let mut out: Vec<char> = Vec::new();
    let mut i: usize = 0;
    while i < s.len()
        invariant
            syn.ok(),
            name@ == property_name(p),
            i <= s@.len(),
            out@ + substitute(s@, i as int, p, pal) == substitute(s@, 0, p, pal),
        decreases s@.len() - i,
    {
        match placeholder_exec(syn, s, i, &name, Ghost(p)) {
            Some(found) => {
                let e = found.end;
                let role = slice_string(s, found.role_start, found.role_end);
                let value = chars_of(placeholder_string(pal, &role, p).as_str());
                append_chars(&mut out, &value);
                assert(out@ + substitute(s@, e as int, p, pal) =~= substitute(s@, 0, p, pal));
                i = e;
            },
            None => {
                out.push(s[i]);
                assert(out@ + substitute(s@, i + 1, p, pal) =~= substitute(s@, 0, p, pal));
                i = i + 1;
            },
        }
    }
    out
}

/// Every occurrence of `pat` in `s`, left to right, replaced by `rep`.
fn replace_pass(s: &Vec<char>, pat: &Vec<char>, rep: &Vec<char>) -> (r: Vec<char>)
    ensures
        r@ == replace_from(s@, 0, pat@, rep@),
{
    let mut out: Vec<char> = Vec::new();
    let mut i: usize = 0;
    while i < s.len()
        invariant
            i <= s@.len(),
            out@ + replace_from(s@, i as int, pat@, rep@) == replace_from(s@, 0, pat@, rep@),
        decreases s@.len() - i,
    {
        if pat.len() > 0 && has_at_exec(s, i, pat) {
            append_chars(&mut out, rep);
            assert(out@ + replace_from(s@, i + pat@.len(), pat@, rep@) =~= replace_from(
                s@,
                0,
                pat@,
                rep@,
            ));
            i = i + pat.len();
        } else {
            out.push(s[i]);
            assert(out@ + replace_from(s@, i + 1, pat@, rep@) =~= replace_from(
                s@,
                0,
                pat@,
                rep@,
            ));
            i = i + 1;
        }
    }
    out
}

fn flag_chars(b: bool) -> (r: Vec<char>)
    ensures
        r@ == flag_text(b),
{
    if b {
        chars_of("true")
    } else {
        chars_of("false")
    }
}

/// Resolves every placeholder of a template against a palette and a mode.
pub fn process_template(template_content: &str, palette: &Palette, effective_mode: &str) -> (r:
    String)
    ensures
        r@ == rendered(template_content@, palette, effective_mode@),
{
    let mode = String::from_str(effective_mode);
    let is_dark = mode == String::from_str("dark");
    let is_light = mode == String::from_str("light");
    let s = chars_of(template_content);
    let s = replace_pass(&s, &chars_of("{{mode}}"), &chars_of(effective_mode));
    let s = replace_pass(&s, &chars_of("{{is_dark}}"), &flag_chars(is_dark));
    let mut s = replace_pass(&s, &chars_of("{{is_light}}"), &flag_chars(is_light));
    let syn = Syntax::new();
    let mut k: usize = 0;
    while k < 13
        invariant
            syn.ok(),
            k <= 13,
            s@ == color_passes(mode_passes(template_content@, effective_mode@), palette, k as int),
        decreases 13 - k,
    {
        s = substitute_pass(&syn, &s, property_of_pass(k), palette);
        k = k + 1;
    }
    string_of(&s)
}

/// No `{` in `s` from `i` on.
pub open spec fn no_brace_from(s: Seq<char>, i: int) -> bool {
    forall|j: int| i <= j < s.len() ==> s[j] != '{'
}

proof fn lemma_replace_absent(s: Seq<char>, i: int, pat: Seq<char>, rep: Seq<char>)
    requires
        0 <= i <= s.len(),
        forall|j: int| i <= j < s.len() ==> !has_at(s, j, pat),
    ensures
        replace_from(s, i, pat, rep) == s.subrange(i, s.len() as int),
    decreases s.len() - i,
{
    if i < s.len() {
        lemma_replace_absent(s, i + 1, pat, rep);
        assert(seq![s[i]] + s.subrange(i + 1, s.len() as int) =~= s.subrange(i, s.len() as int));
    } else {
        assert(s.subrange(i, s.len() as int) =~= Seq::<char>::empty());
    }
}

proof fn lemma_substitute_plain(s: Seq<char>, i: int, p: Property, pal: &Palette)
    requires
        0 <= i <= s.len(),
        no_brace_from(s, i),
    ensures
        substitute(s, i, p, pal) == s.subrange(i, s.len() as int),
    decreases s.len() - i,
{
    reveal_strlit("{{");
    if i < s.len() {
        if has_at(s, i, "{{"@) {
            assert(s.subrange(i, i + 2)[0] == s[i]);
        }
        lemma_substitute_plain(s, i + 1, p, pal);
        assert(seq![s[i]] + s.subrange(i + 1, s.len() as int) =~= s.subrange(i, s.len() as int));
    } else {
        assert(s.subrange(i, s.len() as int) =~= Seq::<char>::empty());
    }
}

proof fn lemma_passes_keep_plain(s: Seq<char>, pal: &Palette, m: int, n: int)
    requires
        1 <= m <= n,
        no_brace_from(color_passes(s, pal, m), 0),
    ensures
        color_passes(s, pal, n) == color_passes(s, pal, m),
    decreases n - m,
{
    if n > m {
        lemma_passes_keep_plain(s, pal, m, n - 1);
        let t = color_passes(s, pal, n - 1);
        lemma_substitute_plain(t, 0, property_at(n - 1), pal);
        assert(t.subrange(0, t.len() as int) =~= t);
    }
}

/// A template whose only `{{` is at its start, followed by `c`, holds no
/// mode placeholder: the mode passes leave it as it is.
proof fn lemma_mode_passes_absent(t: Seq<char>, mode: Seq<char>)
    requires
        t.len() >= 3,
        t[0] == '{' && t[1] == '{' && t[2] == 'c',
        no_brace_from(t, 2),
    ensures
        mode_passes(t, mode) == t,
{
    reveal_strlit("{{mode}}");
    reveal_strlit("{{is_dark}}");
    reveal_strlit("{{is_light}}");
    assert forall|j: int, pat: Seq<char>|
        0 <= j < t.len() && pat.len() >= 3 && pat[0] == '{' && pat[1] == '{' && pat[2] != 'c'
            && #[trigger] has_at(t, j, pat) implies false by {
        assert(t.subrange(j, j + pat.len())[0] == t[j]);
        assert(t.subrange(j, j + pat.len())[1] == t[j + 1]);
        assert(t.subrange(j, j + pat.len())[2] == t[j + 2]);
    }
    lemma_replace_absent(t, 0, "{{mode}}"@, mode);
    assert(t.subrange(0, t.len() as int) =~= t);
    lemma_replace_absent(t, 0, "{{is_dark}}"@, flag_text(mode == "dark"@));
    lemma_replace_absent(t, 0, "{{is_light}}"@, flag_text(mode == "light"@));
}

proof fn lemma_name_run(s: Seq<char>, i: int, e: int)
    requires
        0 <= i <= e < s.len(),
        forall|j: int| i <= j < e ==> is_name_char(#[trigger] s[j]),
        !is_name_char(s[e]),
    ensures
        name_end(s, i) == e,
    decreases e - i,
{
    if i < e {
        lemma_name_run(s, i + 1, e);
    }
}

/// `{{colors.<role>.default.hex}}`.
pub open spec fn hex_placeholder(role: Seq<char>) -> Seq<char> {
    "{{colors."@ + role + ".default.hex}}"@
}

/// A lone hex placeholder renders to its value, in any mode, when that
/// value holds no `{`.
pub proof fn lemma_hex_placeholder(role: Seq<char>, pal: &Palette, mode: Seq<char>)
    requires
        role.len() > 0,
        forall|j: int| 0 <= j < role.len() ==> is_name_char(#[trigger] role[j]),
        no_brace_from(placeholder_value(pal, role, Property::Hex), 0),
    ensures
        rendered(hex_placeholder(role), pal, mode) == placeholder_value(pal, role, Property::Hex),
{
    reveal_strlit("{{colors.");
    reveal_strlit(".default.hex}}");
    reveal_strlit("{{");
    reveal_strlit("}}");
    reveal_strlit("colors");
    reveal_strlit(".");
    reveal_strlit("default");
    reveal_strlit("hex");
    let t = hex_placeholder(role);
    let l = role.len() as int;
    assert(t.len() == 23 + l);
    assert forall|j: int| 9 <= j < 9 + l implies t[j] == role[j - 9] && is_name_char(
        #[trigger] t[j],
    ) by {
        assert(is_name_char(role[j - 9]));
    }
    assert(no_brace_from(t, 2)) by {
        assert forall|j: int| 2 <= j < t.len() implies t[j] != '{' by {
            if 9 <= j < 9 + l {
                assert(is_name_char(t[j]));
            }
        }
    }
    lemma_mode_passes_absent(t, mode);
    assert(skip_spaces(t, 2) == 2);
    assert(t.subrange(0, 2) =~= "{{"@);
    assert(t.subrange(2, 8) =~= "colors"@);
    assert(skip_spaces(t, 8) == 8);
    assert(t.subrange(8, 9) =~= "."@);
    assert(!is_space(t[9]));
    assert(skip_spaces(t, 9) == 9);
    lemma_name_run(t, 9, 9 + l);
    assert(skip_spaces(t, 9 + l) == 9 + l);
    assert(t.subrange(9 + l, 10 + l) =~= "."@);
    assert(skip_spaces(t, 10 + l) == 10 + l);
    assert(t.subrange(10 + l, 17 + l) =~= "default"@);
    assert(skip_spaces(t, 17 + l) == 17 + l);
    assert(t.subrange(17 + l, 18 + l) =~= "."@);
    assert(skip_spaces(t, 18 + l) == 18 + l);
    assert(t.subrange(18 + l, 21 + l) =~= "hex"@);
    assert(skip_spaces(t, 21 + l) == 21 + l);
    assert(t.subrange(21 + l, 23 + l) =~= "}}"@);
    assert(t.subrange(9, 9 + l) =~= role);
    assert(placeholder_at(t, 0, Property::Hex) == Some((23 + l, role)));
    let h = placeholder_value(pal, role, Property::Hex);
    assert(substitute(t, 23 + l, Property::Hex, pal) == Seq::<char>::empty());
    assert(substitute(t, 0, Property::Hex, pal) =~= h);
    assert(color_passes(t, pal, 0) == t);
    assert(property_at(0) == Property::Hex);
    assert(color_passes(t, pal, 1) == h);
    lemma_passes_keep_plain(t, pal, 1, 13);
}

/// Rendering `{{colors.primary.default.hex}}` against a synthesized
/// palette, in any mode, gives exactly the primary role's hex text.
pub proof fn lemma_primary_hex_placeholder(
    pal: &Palette,
    seeds: &crate::theme::ThemeSeeds,
    dark: bool,
    mode: Seq<char>,
)
    requires
        crate::palette::synthesized(pal, seeds, dark),
    ensures
        rendered("{{colors.primary.default.hex}}"@, pal, mode) == pal.primary.default.hex@,
{
    reveal_strlit("{{colors.primary.default.hex}}");
    reveal_strlit("{{colors.");
    reveal_strlit(".default.hex}}");
    reveal_strlit("primary");
    assert("{{colors.primary.default.hex}}"@ =~= hex_placeholder("primary"@));
    assert(role_entry(pal, Role::Primary).is_format_of(
        crate::palette::role_color(seeds, dark, Role::Primary),
    ));
    reveal(ColorFormat::is_format_of);
    assert(no_brace_from(pal.primary.default.hex@, 0));
    lemma_hex_placeholder("primary"@, pal, mode);
}

/// Rendering `{{colors.nope.default.hex}}` (a role no template can
/// address) gives `#000000`, whatever the palette and the mode.
pub proof fn lemma_unknown_role_placeholder(pal: &Palette, mode: Seq<char>)
    ensures
        rendered("{{colors.nope.default.hex}}"@, pal, mode) == "#000000"@,
{
    reveal_strlit("{{colors.nope.default.hex}}");
    reveal_strlit("{{colors.");
    reveal_strlit(".default.hex}}");
    reveal_strlit("nope");
    reveal_strlit("#000000");
    reveal_strlit("primary");
    reveal_strlit("on_primary");
    reveal_strlit("primary_container");
    reveal_strlit("on_primary_container");
    reveal_strlit("secondary");
    reveal_strlit("on_secondary");
    reveal_strlit("secondary_container");
    reveal_strlit("on_secondary_container");
    reveal_strlit("tertiary");
    reveal_strlit("on_tertiary");
    reveal_strlit("tertiary_container");
    reveal_strlit("on_tertiary_container");
    reveal_strlit("error");
    reveal_strlit("on_error");
    reveal_strlit("error_container");
    reveal_strlit("on_error_container");
    reveal_strlit("background");
    reveal_strlit("on_background");
    reveal_strlit("surface");
    reveal_strlit("on_surface");
    reveal_strlit("surface_variant");
    reveal_strlit("on_surface_variant");
    reveal_strlit("surface_container_lowest");
    reveal_strlit("surface_container_low");
    reveal_strlit("surface_container");
    reveal_strlit("surface_container_high");
    reveal_strlit("surface_container_highest");
    reveal_strlit("outline");
    reveal_strlit("outline_variant");
    reveal_strlit("shadow");
    assert("{{colors.nope.default.hex}}"@ =~= hex_placeholder("nope"@));
    assert(role_of_name("nope"@) is None);
    assert(no_brace_from("#000000"@, 0));
    lemma_hex_placeholder("nope"@, pal, mode);
}

} // verus!
